//! Diagnostics that the toolkit allocates as NUL-terminated strings.
use vstd::prelude::*;

verus! {

/// Length of the C string held at the start of `s`: the bytes before the first
/// NUL, or all of `s` when it holds none.
pub open spec fn c_len(s: Seq<u8>) -> nat
    decreases s.len(),
{
    if s.len() == 0 || s[0] == 0 {
        0
    } else {
        1 + c_len(s.drop_first())
    }
}

/// What a null diagnostic renders as.
pub open spec fn null_text() -> Seq<u8> {
    seq![60u8, 78u8, 85u8, 76u8, 76u8, 62u8]
}

/// Length of a diagnostic: zero when it is null.
pub open spec fn message_len(raw: Option<Seq<u8>>) -> nat {
    match raw {
        None => 0,
        Some(s) => c_len(s),
    }
}

/// Text of a diagnostic: the C string's bytes, or the placeholder when null.
pub open spec fn message_text(raw: Option<Seq<u8>>) -> Seq<u8> {
    match raw {
        None => null_text(),
        Some(s) => s.subrange(0, c_len(s) as int),
    }
}

pub proof fn lemma_c_len_bound(s: Seq<u8>)
    ensures
        c_len(s) <= s.len(),
    decreases s.len(),
{
    if s.len() > 0 && s[0] != 0 {
        lemma_c_len_bound(s.drop_first());
    }
}

/// `n` is the C-string length of `s` when the first `n` bytes are not NUL and
/// the byte after them is NUL or the end.
pub proof fn lemma_c_len(s: Seq<u8>, n: nat)
    requires
        n <= s.len(),
        forall|j: int| 0 <= j < n ==> s[j] != 0,
        n == s.len() || s[n as int] == 0,
    ensures
        c_len(s) == n,
    decreases n,
{
    if n > 0 {
        assert(s[0] != 0);
        let t = s.drop_first();
        assert forall|j: int| 0 <= j < n - 1 implies t[j] != 0 by {
            assert(t[j] == s[j + 1]);
        }
        if n < s.len() {
            assert(t[n - 1] == s[n as int]);
        }
        lemma_c_len(t, (n - 1) as nat);
    }
}

/// A diagnostic string that the toolkit allocated and that this value now owns.
/// It holds the native bytes as received; null is a valid, empty state.
#[derive(Debug)]
pub struct Message {
    raw: Option<Vec<u8>>,
}

impl View for Message {
    type V = Option<Seq<u8>>;

    closed spec fn view(&self) -> Option<Seq<u8>> {
        match self.raw {
            None => None,
            Some(v) => Some(v@),
        }
    }
}

impl Message {
    /// Takes ownership of a native diagnostic: `None` for a null pointer, else
    /// its bytes, terminator included.
    pub fn from_raw(raw: Option<Vec<u8>>) -> (r: Message)
        ensures
            r@ == match raw {
                None => None::<Seq<u8>>,
                Some(v) => Some(v@),
            },
    {
        Message { raw }
    }

    /// Whether the toolkit gave no diagnostic at all.
    pub fn is_null(&self) -> (r: bool)
        ensures
            r == (self@ is None),
    {
        self.raw.is_none()
    }

    /// Number of bytes before the terminator; zero for a null diagnostic.
    pub fn len(&self) -> (r: usize)
        ensures
            r == message_len(self@),
    {
        match &self.raw {
            None => 0,
            Some(b) => {
                let mut i: usize = 0;
                while i < b.len() && b[i] != 0
                    invariant
                        i <= b@.len(),
                        forall|j: int| 0 <= j < i ==> b@[j] != 0,
                    decreases b@.len() - i,
                {
                    i = i + 1;
                }
                proof {
                    lemma_c_len(b@, i as nat);
                }
                i
            },
        }
    }

    /// The diagnostic's text as bytes, or the placeholder `<NULL>`.
    pub fn to_bytes(&self) -> (r: Vec<u8>)
        ensures
            r@ == message_text(self@),
    {
        let n = self.len();
        match &self.raw {
            None => vec![60u8, 78u8, 85u8, 76u8, 76u8, 62u8],
            Some(b) => {
                proof {
                    lemma_c_len_bound(b@);
                }
                let mut out: Vec<u8> = Vec::new();
                let mut i: usize = 0;
                while i < n
                    invariant
                        n == c_len(b@),
                        n <= b@.len(),
                        i <= n,
                        out@ == b@.subrange(0, i as int),
                    decreases n - i,
                {
                    out.push(b[i]);
                    i = i + 1;
                    assert(out@ =~= b@.subrange(0, i as int));
                }
                out
            },
        }
    }
}

/// A diagnostic received with its terminator reads back as exactly the bytes
/// sent, with their count as its length; a null one reads as the placeholder,
/// with length zero.
pub proof fn lemma_message_round_trip(text: Seq<u8>)
    requires
        forall|j: int| 0 <= j < text.len() ==> text[j] != 0,
    ensures
        message_text(Some(text.push(0u8))) == text,
        message_len(Some(text.push(0u8))) == text.len(),
        message_text(None) == null_text(),
        message_len(None) == 0,
{
    let s = text.push(0u8);
    assert forall|j: int| 0 <= j < text.len() implies s[j] != 0 by {
        assert(s[j] == text[j]);
    }
    lemma_c_len(s, text.len());
    assert(s.subrange(0, text.len() as int) =~= text);
}

} // verus!
