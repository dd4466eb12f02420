use vstd::prelude::*;

verus! {

/// The video quality a playlist or channel downloads at.
#[derive(Debug, Clone, Copy, PartialEq, Eq)]
pub enum Quality {
    High,
    Mid,
    Low,
}

/// The name a quality is written as, in requests, responses and task payloads.
pub open spec fn quality_name(q: Quality) -> Seq<char> {
    match q {
        Quality::High => "high"@,
        Quality::Mid => "mid"@,
        Quality::Low => "low"@,
    }
}

/// The quality written as `name`, if any.
pub open spec fn quality_named(name: Seq<char>) -> Option<Quality> {
    if name == "high"@ {
        Some(Quality::High)
    } else if name == "mid"@ {
        Some(Quality::Mid)
    } else if name == "low"@ {
        Some(Quality::Low)
    } else {
        None
    }
}

/// Whether the two strings hold the same characters.
pub fn same_text(a: &str, b: &str) -> (r: bool)
    ensures
        r == (a@ == b@),
{
    let a_owned = a.to_string();
    let b_owned = b.to_string();
    a_owned == b_owned
}

impl Quality {
    /// Reads a quality from its name; `None` when the name is none of
    /// `"high"`, `"mid"` and `"low"`.
    pub fn new(name: &str) -> (r: Option<Quality>)
        ensures
            r == quality_named(name@),
    {
        if same_text(name, "high") {
            Some(Quality::High)
        } else if same_text(name, "mid") {
            Some(Quality::Mid)
        } else if same_text(name, "low") {
            Some(Quality::Low)
        } else {
            None
        }
    }

    pub fn as_str(&self) -> (r: &'static str)
        ensures
            r@ == quality_name(*self),
    {
        match self {
            Quality::High => "high",
            Quality::Mid => "mid",
            Quality::Low => "low",
        }
    }
}

/// Every quality name reads back as the quality it names.
pub proof fn lemma_quality_name_round_trip(q: Quality)
    ensures
        quality_named(quality_name(q)) == Some(q),
{
    reveal_strlit("high");
    reveal_strlit("mid");
    reveal_strlit("low");
    assert("mid"@ != "high"@) by {
        assert("mid"@.len() != "high"@.len());
    }
    assert("low"@ != "high"@) by {
        assert("low"@.len() != "high"@.len());
    }
    assert("low"@ != "mid"@) by {
        assert("low"@[0] != "mid"@[0]);
    }
}

/// A point in time, as seconds since the Unix epoch and the nanoseconds
/// within that second.
#[derive(Debug, Clone, Copy, PartialEq, Eq)]
pub struct Timestamp {
    pub secs: i64,
    pub nanos: u32,
}

impl Timestamp {
    /// The instant `seconds` whole seconds after `self`.
    pub fn plus_seconds(self, seconds: i64) -> (r: Timestamp)
        requires
            i64::MIN <= self.secs + seconds <= i64::MAX,
        ensures
            r.secs == self.secs + seconds,
            r.nanos == self.nanos,
    {
        Timestamp { secs: self.secs + seconds, nanos: self.nanos }
    }
}

/// Whether `c` is an ASCII whitespace character.
pub open spec fn is_space(c: char) -> bool {
    c == ' ' || c == '\t' || c == '\n' || c == '\r' || c == '\x0C'
}

/// Whether `s` holds nothing but whitespace (the empty string included).
pub open spec fn is_blank(s: Seq<char>) -> bool {
    forall|i: int| 0 <= i < s.len() ==> is_space(#[trigger] s[i])
}

/// Decides `is_blank` for a string.
pub fn blank(s: &str) -> (r: bool)
    ensures
        r == is_blank(s@),
{
    let n = s.unicode_len();
    let mut i: usize = 0;
    while i < n
        invariant
            n == s@.len(),
            i <= n,
            forall|j: int| 0 <= j < i ==> is_space(#[trigger] s@[j]),
        decreases n - i,
    {
        let c = s.get_char(i);
        if !(c == ' ' || c == '\t' || c == '\n' || c == '\r' || c == '\x0C') {
            return false;
        }
        i = i + 1;
    }
    true
}

/// Each quality is written as its own lower-case name, and no two qualities
/// share a name.
pub proof fn lemma_quality_names(a: Quality, b: Quality)
    ensures
        quality_name(Quality::High) == "high"@,
        quality_name(Quality::Mid) == "mid"@,
        quality_name(Quality::Low) == "low"@,
        quality_name(a) == quality_name(b) ==> a == b,
{
    lemma_quality_name_round_trip(a);
    lemma_quality_name_round_trip(b);
}

} // verus!
