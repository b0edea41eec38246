//! The composite search request: a free-text search term, the field it is
//! matched against, the protein's role, and two independently optional
//! filters (modification class and organism). A value of this type is built
//! once per query and never mutated.

use crate::text::str_eq;
use crate::values::{ItemType, PtmType, Role};
use vstd::prelude::*;

verus! {

/// The mathematical value of a `SearchParameters`: its fields, with the
/// strings abstracted to their character sequences.
#[verifier::ext_equal]
pub ghost struct ParametersView {
    pub search_term: Seq<char>,
    pub term_type: ItemType,
    pub role: Role,
    pub ptm_type: Option<PtmType>,
    pub organism: Option<Seq<char>>,
}

/// A fully-specified, immutable search request.
#[derive(Debug)]
pub struct SearchParameters {
    search_term: String,
    term_type: ItemType,
    role: Role,
    ptm_type: Option<PtmType>,
    organism: Option<String>,
}

impl View for SearchParameters {
    type V = ParametersView;

    closed spec fn view(&self) -> ParametersView {
        ParametersView {
            search_term: self.search_term@,
            term_type: self.term_type,
            role: self.role,
            ptm_type: self.ptm_type,
            organism: match self.organism {
                Some(s) => Some(s@),
                None => None,
            },
        }
    }
}

/// The value of the zero-argument constructor: an empty search term matched
/// against every field, either role, and no optional filter — "match
/// everything".
pub open spec fn match_all_view() -> ParametersView {
    ParametersView {
        search_term: Seq::empty(),
        term_type: ItemType::All,
        role: Role::Both,
        ptm_type: None,
        organism: None,
    }
}

impl SearchParameters {
    /// Assembles a search request from its parts. Accepts any strings:
    /// validation of enumerated dimensions happens in their token parsers,
    /// before values reach this constructor.
    pub fn new(
        search_term: String,
        term_type: ItemType,
        role: Role,
        ptm_type: Option<PtmType>,
        organism: Option<String>,
    ) -> (r: Self)
        ensures
            r@ == (ParametersView {
                search_term: search_term@,
                term_type,
                role,
                ptm_type,
                organism: match organism {
                    Some(s) => Some(s@),
                    None => None,
                },
            }),
    {
        Self { search_term, term_type, role, ptm_type, organism }
    }

    /// The search term, as given to the constructor.
    pub fn search_term(&self) -> (r: &String)
        ensures
            r@ == self@.search_term,
    {
        &self.search_term
    }

    /// The field the search term is matched against.
    pub fn term_type(&self) -> (r: ItemType)
        ensures
            r == self@.term_type,
    {
        self.term_type
    }

    /// The role filter.
    pub fn role(&self) -> (r: Role)
        ensures
            r == self@.role,
    {
        self.role
    }

    /// The optional modification-class filter.
    pub fn ptm_type(&self) -> (r: Option<PtmType>)
        ensures
            r == self@.ptm_type,
    {
        self.ptm_type
    }

    /// The optional organism filter.
    pub fn organism(&self) -> (r: &Option<String>)
        ensures
            match r {
                Some(s) => self@.organism == Some(s@),
                None => self@.organism is None,
            },
    {
        &self.organism
    }
}

impl Default for SearchParameters {
    /// The "match everything" request: empty term, `All`, `Both`, no
    /// optional filter.
    fn default() -> (r: Self)
        ensures
            r@ == match_all_view(),
    {
        proof {
            reveal_strlit("");
        }
        let r = Self {
            search_term: String::from_str(""),
            term_type: ItemType::All,
            role: Role::Both,
            ptm_type: None,
            organism: None,
        };
        proof {
            assert(r@.search_term =~= match_all_view().search_term);
            assert(r@ =~= match_all_view());
        }
        r
    }
}

impl Clone for SearchParameters {
    /// A clone carries the same value.
    fn clone(&self) -> (r: Self)
        ensures
            r@ == self@,
    {
        Self {
            search_term: self.search_term.clone(),
            term_type: self.term_type,
            role: self.role,
            ptm_type: self.ptm_type,
            organism: match &self.organism {
                Some(s) => Some(s.clone()),
                None => None,
            },
        }
    }
}

impl PartialEq for SearchParameters {
    /// Equality is value-semantic: two requests are equal exactly when all
    /// five fields agree.
    fn eq(&self, other: &Self) -> (r: bool) {
        let fields_eq = str_eq(self.search_term.as_str(), other.search_term.as_str())
            && self.term_type == other.term_type && self.role == other.role
            && (match (&self.ptm_type, &other.ptm_type) {
                (Some(a), Some(b)) => *a == *b,
                (None, None) => true,
                _ => false,
            })
            && (match (&self.organism, &other.organism) {
                (Some(a), Some(b)) => str_eq(a.as_str(), b.as_str()),
                (None, None) => true,
                _ => false,
            });
        proof {
            if fields_eq {
                assert(self@ =~= other@);
            }
        }
        fields_eq
    }
}

impl vstd::std_specs::cmp::PartialEqSpecImpl for SearchParameters {
    open spec fn obeys_eq_spec() -> bool {
        true
    }

    open spec fn eq_spec(&self, other: &Self) -> bool {
        self@ == other@
    }
}

impl Eq for SearchParameters {}

/// Law: the default request equals the request assembled from an empty
/// search term, `ItemType::All`, `Role::Both` and no optional filters —
/// the views that `default` and `new` promise are the same value.
pub proof fn lemma_default_is_match_all()
    ensures
        match_all_view() == (ParametersView {
            search_term: ""@,
            term_type: ItemType::All,
            role: Role::Both,
            ptm_type: None,
            organism: None,
        }),
{
    reveal_strlit("");
    assert(""@ =~= match_all_view().search_term);
}

/// Law: two request views are equal exactly when they agree on every field;
/// differing in any one field makes them unequal.
pub proof fn lemma_eq_is_fieldwise(a: ParametersView, b: ParametersView)
    ensures
        (a == b) <==> (a.search_term == b.search_term && a.term_type == b.term_type
            && a.role == b.role && a.ptm_type == b.ptm_type && a.organism == b.organism),
{
    if a.search_term == b.search_term && a.term_type == b.term_type && a.role == b.role
        && a.ptm_type == b.ptm_type && a.organism == b.organism {
        assert(a =~= b);
    }
}

} // verus!
