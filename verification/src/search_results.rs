//! Search result processing: the attributes in which a search engine reports
//! a match, and the positions of those matches.

use vstd::prelude::*;
use crate::text::str_eq;

verus! {

/// The attribute where a search match was found.
#[derive(Clone, Copy, Debug, PartialEq, Eq, Structural)]
pub enum SearchMatchAttribute {
    /// Message body text
    Body,
    /// Message subject line
    Subject,
    /// Sender email address
    From,
    /// Primary recipients
    To,
    /// CC recipients
    Cc,
    /// BCC recipients
    Bcc,
}

/// The textual name of each attribute.
pub open spec fn attribute_name(a: SearchMatchAttribute) -> Seq<char> {
    match a {
        SearchMatchAttribute::Body => "body"@,
        SearchMatchAttribute::Subject => "subject"@,
        SearchMatchAttribute::From => "from"@,
        SearchMatchAttribute::To => "to"@,
        SearchMatchAttribute::Cc => "cc"@,
        SearchMatchAttribute::Bcc => "bcc"@,
    }
}

/// The attribute whose name is `s`, if any.
pub open spec fn attribute_of_name(s: Seq<char>) -> Option<SearchMatchAttribute> {
    if s == "body"@ {
        Some(SearchMatchAttribute::Body)
    } else if s == "subject"@ {
        Some(SearchMatchAttribute::Subject)
    } else if s == "from"@ {
        Some(SearchMatchAttribute::From)
    } else if s == "to"@ {
        Some(SearchMatchAttribute::To)
    } else if s == "cc"@ {
        Some(SearchMatchAttribute::Cc)
    } else if s == "bcc"@ {
        Some(SearchMatchAttribute::Bcc)
    } else {
        None
    }
}

impl SearchMatchAttribute {
    /// Parse an attribute string into the enum.
    ///
    /// Returns `None` if the string doesn't match any known attribute.
    pub fn from_str(s: &str) -> (r: Option<Self>)
        ensures
            r == attribute_of_name(s@),
    {
        if str_eq(s, "body") {
            Some(Self::Body)
        } else if str_eq(s, "subject") {
            Some(Self::Subject)
        } else if str_eq(s, "from") {
            Some(Self::From)
        } else if str_eq(s, "to") {
            Some(Self::To)
        } else if str_eq(s, "cc") {
            Some(Self::Cc)
        } else if str_eq(s, "bcc") {
            Some(Self::Bcc)
        } else {
            None
        }
    }

    /// Convert the enum to its string representation.
    pub fn as_str(&self) -> (r: &'static str)
        ensures
            r@ == attribute_name(*self),
    {
        match self {
            Self::Body => "body",
            Self::Subject => "subject",
            Self::From => "from",
            Self::To => "to",
            Self::Cc => "cc",
            Self::Bcc => "bcc",
        }
    }
}

/// Parsing the name of an attribute gives the attribute back.
pub proof fn lemma_attribute_name_round_trip(a: SearchMatchAttribute)
    ensures
        attribute_of_name(attribute_name(a)) == Some(a),
{
    reveal_strlit("body");
    reveal_strlit("subject");
    reveal_strlit("from");
    reveal_strlit("to");
    reveal_strlit("cc");
    reveal_strlit("bcc");
    assert("body"@[0] == 'b' && "subject"@[0] == 's' && "from"@[0] == 'f');
    assert("to"@[0] == 't' && "cc"@[0] == 'c' && "bcc"@[0] == 'b');
    assert("body"@.len() == 4 && "subject"@.len() == 7 && "from"@.len() == 4);
    assert("to"@.len() == 2 && "cc"@.len() == 2 && "bcc"@.len() == 3);
}

/// Position of a search match within document content.
#[derive(Clone, Copy, Debug, PartialEq, Eq, Structural)]
pub struct SearchMatchPosition {
    /// The attribute where the match was found
    pub attribute: SearchMatchAttribute,
    /// Character position within the attribute value
    pub position: u64,
    /// Index for multi-value attributes
    pub value_index: u64,
}

/// One occurrence of a match as the search engine reports it: the name of
/// the attribute, the position within it and the index of the value.
#[derive(Clone, Debug)]
pub struct MatchOccurrence {
    pub attribute: String,
    pub position: u64,
    pub value_index: u64,
}

/// The position an occurrence is highlighted at, when its attribute is known.
pub open spec fn position_of(o: MatchOccurrence) -> Option<SearchMatchPosition> {
    match attribute_of_name(o.attribute@) {
        Some(a) => Some(
            (SearchMatchPosition { attribute: a, position: o.position, value_index: o.value_index }),
        ),
        None => None,
    }
}

/// The positions of the occurrences `os` in known attributes, in order.
pub open spec fn positions_of(os: Seq<MatchOccurrence>) -> Seq<SearchMatchPosition>
    decreases os.len(),
{
    if os.len() == 0 {
        Seq::empty()
    } else {
        let rest = positions_of(os.drop_last());
        match position_of(os.last()) {
            Some(p) => rest.push(p),
            None => rest,
        }
    }
}

/// The highlighting positions of a search result: its occurrences in
/// attributes that are known, in order; others are skipped.
pub fn match_positions(occurrences: &Vec<MatchOccurrence>) -> (r: Vec<SearchMatchPosition>)
    ensures
        r@ == positions_of(occurrences@),
{
    let mut out: Vec<SearchMatchPosition> = Vec::new();
    let mut i: usize = 0;
    while i < occurrences.len()
        invariant
            i <= occurrences@.len(),
            out@ == positions_of(occurrences@.take(i as int)),
        decreases occurrences.len() - i,
    {
        let o = &occurrences[i];
        proof {
            assert(occurrences@.take(i + 1).drop_last() =~= occurrences@.take(i as int));
            assert(occurrences@.take(i + 1).last() == *o);
        }
        match SearchMatchAttribute::from_str(o.attribute.as_str()) {
            Some(attribute) => {
                out.push(SearchMatchPosition { attribute, position: o.position, value_index: o.value_index });
            },
            None => {},
        }
        i = i + 1;
    }
    proof {
        assert(occurrences@.take(occurrences@.len() as int) =~= occurrences@);
    }
    out
}

} // verus!
