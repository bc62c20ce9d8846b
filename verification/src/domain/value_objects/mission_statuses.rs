//! The stages of a mission's life and their stored text.
use vstd::prelude::*;
use vstd::string::StrSliceExecFns;

verus! {

/// A mission is Open while its crew forms, InProgress once its chief starts it,
/// and ends Completed or Failed.
#[derive(PartialEq, Eq, Structural, Clone, Copy, Debug)]
pub enum MissionStatuses {
    Open,
    InProgress,
    Completed,
    Failed,
}

/// The text under which a status is stored.
pub open spec fn status_text(s: MissionStatuses) -> Seq<char> {
    match s {
        MissionStatuses::Open => seq!['O', 'p', 'e', 'n'],
        MissionStatuses::InProgress => seq![
            'I',
            'n',
            'P',
            'r',
            'o',
            'g',
            'r',
            'e',
            's',
            's',
        ],
        MissionStatuses::Completed => seq!['C', 'o', 'm', 'p', 'l', 'e', 't', 'e', 'd'],
        MissionStatuses::Failed => seq!['F', 'a', 'i', 'l', 'e', 'd'],
    }
}

/// Whether a stored status text is that of `s`.
pub open spec fn has_status(text: Seq<char>, s: MissionStatuses) -> bool {
    text == status_text(s)
}

impl MissionStatuses {
    /// The text under which this status is stored.
    pub fn to_text(&self) -> (r: String)
        ensures
            r@ == status_text(*self),
    {
        let r = match self {
            MissionStatuses::Open => String::from_str("Open"),
            MissionStatuses::InProgress => String::from_str("InProgress"),
            MissionStatuses::Completed => String::from_str("Completed"),
            MissionStatuses::Failed => String::from_str("Failed"),
        };
        proof {
            reveal_strlit("Open");
            reveal_strlit("InProgress");
            reveal_strlit("Completed");
            reveal_strlit("Failed");
        }
        r
    }

    /// Whether `text` is the stored text of this status.
    pub fn matches(&self, text: &str) -> (b: bool)
        ensures
            b == has_status(text@, *self),
    {
        let own = self.to_text();
        str_equal(own.as_str(), text)
    }
}

/// Whether two strings hold the same characters.
pub fn str_equal(a: &str, b: &str) -> (r: bool)
    ensures
        r == (a@ == b@),
{
    let n = a.unicode_len();
    if n != b.unicode_len() {
        return false;
    }
    let mut i: usize = 0;
    while i < n
        invariant
            n == a@.len(),
            n == b@.len(),
            i <= n,
            forall|k: int| 0 <= k < i ==> a@[k] == b@[k],
        decreases n - i,
    {
        if a.get_char(i) != b.get_char(i) {
            return false;
        }
        i = i + 1;
    }
    proof {
        assert(a@ =~= b@);
    }
    true
}

} // verus!
