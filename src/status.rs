use vstd::prelude::*;

verus! {

/// The reading progress of one article: a closed enumeration.
#[derive(Debug, Clone, Copy, PartialEq, Eq, Structural)]
pub enum Status {
    ToRead,
    Reading,
    Read,
}

/// The canonical text of a status.
pub open spec fn status_text(s: Status) -> Seq<char> {
    match s {
        Status::ToRead => seq!['t', 'o', '_', 'r', 'e', 'a', 'd'],
        Status::Reading => seq!['r', 'e', 'a', 'd', 'i', 'n', 'g'],
        Status::Read => seq!['r', 'e', 'a', 'd'],
    }
}

/// The status whose canonical text is `t`, if there is one.
pub open spec fn parse_status(t: Seq<char>) -> Option<Status> {
    if t == status_text(Status::ToRead) {
        Some(Status::ToRead)
    } else if t == status_text(Status::Reading) {
        Some(Status::Reading)
    } else if t == status_text(Status::Read) {
        Some(Status::Read)
    } else {
        None
    }
}

impl Status {
    /// The canonical lowercase-with-underscore text of this status.
    pub fn as_str(&self) -> (r: &'static str)
        ensures
            r@ == status_text(*self),
    {
        proof {
            reveal_strlit("to_read");
            reveal_strlit("reading");
            reveal_strlit("read");
        }
        match self {
            Status::ToRead => "to_read",
            Status::Reading => "reading",
            Status::Read => "read",
        }
    }

    /// The status whose canonical text is `s`; `None` for any other text.
    pub fn from_str(s: &str) -> (r: Option<Status>)
        ensures
            r == parse_status(s@),
    {
        let t = String::from_str(s);
        if t == String::from_str(Status::ToRead.as_str()) {
            Some(Status::ToRead)
        } else if t == String::from_str(Status::Reading.as_str()) {
            Some(Status::Reading)
        } else if t == String::from_str(Status::Read.as_str()) {
            Some(Status::Read)
        } else {
            None
        }
    }

    /// Every status, in declaration order.
    pub fn all() -> (r: Vec<Status>)
        ensures
            r@ == seq![Status::ToRead, Status::Reading, Status::Read],
    {
        vec![Status::ToRead, Status::Reading, Status::Read]
    }
}

/// Reading back the canonical text of a status gives that status.
pub proof fn lemma_text_round_trip(s: Status)
    ensures
        parse_status(status_text(s)) == Some(s),
{
    match s {
        Status::ToRead => {},
        Status::Reading => {
            assert(status_text(Status::Reading)[0] != status_text(Status::ToRead)[0]);
        },
        Status::Read => {
            assert(status_text(Status::Read).len() != status_text(Status::ToRead).len());
            assert(status_text(Status::Read).len() != status_text(Status::Reading).len());
        },
    }
}

/// Any text that parses is the canonical text of the status it parses to:
/// the mapping between statuses and their texts is a bijection.
pub proof fn lemma_parse_inverts_text(t: Seq<char>)
    ensures
        parse_status(t) matches Some(s) ==> status_text(s) == t,
        (exists|s: Status| status_text(s) == t) ==> parse_status(t) is Some,
{
    if exists|s: Status| status_text(s) == t {
        let s = choose|s: Status| status_text(s) == t;
        lemma_text_round_trip(s);
    }
}

} // verus!
