//! The closed, enumerated query dimensions: what field a search term is
//! matched against (`ItemType`), the modification-class filter (`PtmType`),
//! and which side of a PTM relationship a protein plays (`Role`).
//!
//! Each type carries three textual mappings:
//! - a canonical *token* table (lower-case identifiers typed on a command
//!   line), consulted by `from_token`;
//! - a *wire name* table (the bare variant names that appear in the
//!   serialized request), consulted by `wire_name` / `from_wire_name`;
//! - a human-readable *display label*, distinct from both.

use crate::text::str_eq;
use vstd::prelude::*;

verus! {

/// The field of a protein record that a search term is matched against.
#[derive(Debug, Clone, Copy, PartialEq, Eq, Structural)]
pub enum ItemType {
    All,
    UniProtID,
    ProteinGeneName,
    PMID,
}

/// The modification-class filter.
#[derive(Debug, Clone, Copy, PartialEq, Eq, Structural)]
pub enum PtmType {
    Acetylation,
    CGlycosylation,
    NGlycosylation,
    OGlycosylation,
    SGlycosylation,
    Methylation,
    Myristoylation,
    SNitrosylation,
    Phosphorylation,
    Sumoylation,
    Ubiquitination,
}

/// Which side of a PTM relationship the protein plays.
#[derive(Debug, Clone, Copy, PartialEq, Eq, Structural)]
pub enum Role {
    Enzyme,
    Substrate,
    Both,
}

/// Raised when a string meant to select an enumerated value matches no
/// variant's canonical token; carries the offending input and the valid
/// token set of the type that rejected it.
#[derive(Debug)]
pub struct UnrecognizedToken {
    pub token: String,
    pub expected: Vec<String>,
}

// ---------------------------------------------------------------------------
// ItemType
// ---------------------------------------------------------------------------

/// The canonical command-line token of each `ItemType` variant.
pub open spec fn item_type_token(t: ItemType) -> Seq<char> {
    match t {
        ItemType::All => "all"@,
        ItemType::UniProtID => "uniprot-id"@,
        ItemType::ProteinGeneName => "protein-gene-name"@,
        ItemType::PMID => "pmid"@,
    }
}

/// The variant selected by a token, if any.
pub open spec fn item_type_of_token(s: Seq<char>) -> Option<ItemType> {
    if s == item_type_token(ItemType::All) {
        Some(ItemType::All)
    } else if s == item_type_token(ItemType::UniProtID) {
        Some(ItemType::UniProtID)
    } else if s == item_type_token(ItemType::ProteinGeneName) {
        Some(ItemType::ProteinGeneName)
    } else if s == item_type_token(ItemType::PMID) {
        Some(ItemType::PMID)
    } else {
        None
    }
}

/// The valid token set of `ItemType`, in declaration order.
pub open spec fn item_type_tokens() -> Seq<Seq<char>> {
    seq![
        item_type_token(ItemType::All),
        item_type_token(ItemType::UniProtID),
        item_type_token(ItemType::ProteinGeneName),
        item_type_token(ItemType::PMID),
    ]
}

/// The bare variant name of each `ItemType` variant: its wire form.
pub open spec fn item_type_name(t: ItemType) -> Seq<char> {
    match t {
        ItemType::All => "All"@,
        ItemType::UniProtID => "UniProtID"@,
        ItemType::ProteinGeneName => "ProteinGeneName"@,
        ItemType::PMID => "PMID"@,
    }
}

/// The variant whose wire name a string is, if any.
pub open spec fn item_type_of_name(s: Seq<char>) -> Option<ItemType> {
    if s == item_type_name(ItemType::All) {
        Some(ItemType::All)
    } else if s == item_type_name(ItemType::UniProtID) {
        Some(ItemType::UniProtID)
    } else if s == item_type_name(ItemType::ProteinGeneName) {
        Some(ItemType::ProteinGeneName)
    } else if s == item_type_name(ItemType::PMID) {
        Some(ItemType::PMID)
    } else {
        None
    }
}

/// The display label of each `ItemType` variant: its bare variant name.
pub open spec fn item_type_display(t: ItemType) -> Seq<char> {
    item_type_name(t)
}

impl ItemType {
    /// The canonical command-line token of this variant.
    pub fn token(&self) -> (s: String)
        ensures
            s@ == item_type_token(*self),
    {
        match self {
            ItemType::All => String::from_str("all"),
            ItemType::UniProtID => String::from_str("uniprot-id"),
            ItemType::ProteinGeneName => String::from_str("protein-gene-name"),
            ItemType::PMID => String::from_str("pmid"),
        }
    }

    /// Maps a command-line token to its variant; any other string is
    /// rejected with `UnrecognizedToken`.
    pub fn from_token(s: &str) -> (r: Result<ItemType, UnrecognizedToken>)
        ensures
            match r {
                Ok(t) => item_type_of_token(s@) == Some(t),
                Err(e) => item_type_of_token(s@) is None && e.token@ == s@
                    && e.expected.deep_view() == item_type_tokens(),
            },
    {
        if str_eq(s, "all") {
            Ok(ItemType::All)
        } else if str_eq(s, "uniprot-id") {
            Ok(ItemType::UniProtID)
        } else if str_eq(s, "protein-gene-name") {
            Ok(ItemType::ProteinGeneName)
        } else if str_eq(s, "pmid") {
            Ok(ItemType::PMID)
        } else {
            let mut expected: Vec<String> = Vec::new();
            expected.push(String::from_str("all"));
            expected.push(String::from_str("uniprot-id"));
            expected.push(String::from_str("protein-gene-name"));
            expected.push(String::from_str("pmid"));
            proof {
                assert(expected.deep_view() =~= item_type_tokens());
            }
            Err(UnrecognizedToken { token: s.to_owned(), expected })
        }
    }

    /// The wire name of this variant: its bare variant name.
    pub fn wire_name(&self) -> (s: String)
        ensures
            s@ == item_type_name(*self),
    {
        match self {
            ItemType::All => String::from_str("All"),
            ItemType::UniProtID => String::from_str("UniProtID"),
            ItemType::ProteinGeneName => String::from_str("ProteinGeneName"),
            ItemType::PMID => String::from_str("PMID"),
        }
    }

    /// Maps a wire name back to its variant.
    pub fn from_wire_name(s: &str) -> (r: Option<ItemType>)
        ensures
            r == item_type_of_name(s@),
    {
        if str_eq(s, "All") {
            Some(ItemType::All)
        } else if str_eq(s, "UniProtID") {
            Some(ItemType::UniProtID)
        } else if str_eq(s, "ProteinGeneName") {
            Some(ItemType::ProteinGeneName)
        } else if str_eq(s, "PMID") {
            Some(ItemType::PMID)
        } else {
            None
        }
    }

    /// The human-readable label of this variant.
    pub fn display(&self) -> (s: String)
        ensures
            s@ == item_type_display(*self),
    {
        self.wire_name()
    }
}

/// Law: every `ItemType` token selects exactly the variant it belongs to,
/// so parsing a variant's own token yields that variant back.
pub proof fn lemma_item_type_token_round_trip(t: ItemType)
    ensures
        item_type_of_token(item_type_token(t)) == Some(t),
{
    reveal_strlit("all");
    reveal_strlit("uniprot-id");
    reveal_strlit("protein-gene-name");
    reveal_strlit("pmid");
    assert(("all"@).len() == 3);
    assert(("uniprot-id"@).len() == 10);
    assert(("protein-gene-name"@).len() == 17);
    assert(("pmid"@).len() == 4);
    match t {
        ItemType::All => assert(item_type_of_token(item_type_token(ItemType::All))
            == Some(ItemType::All)),
        ItemType::UniProtID => assert(item_type_of_token(item_type_token(ItemType::UniProtID))
            == Some(ItemType::UniProtID)),
        ItemType::ProteinGeneName => assert(item_type_of_token(item_type_token(
            ItemType::ProteinGeneName,
        )) == Some(ItemType::ProteinGeneName)),
        ItemType::PMID => assert(item_type_of_token(item_type_token(ItemType::PMID))
            == Some(ItemType::PMID)),
    }
}

/// Law: every `ItemType` wire name maps back to the variant it names.
pub proof fn lemma_item_type_name_round_trip(t: ItemType)
    ensures
        item_type_of_name(item_type_name(t)) == Some(t),
{
    reveal_strlit("All");
    reveal_strlit("UniProtID");
    reveal_strlit("ProteinGeneName");
    reveal_strlit("PMID");
    assert(("All"@).len() == 3);
    assert(("UniProtID"@).len() == 9);
    assert(("ProteinGeneName"@).len() == 15);
    assert(("PMID"@).len() == 4);
    match t {
        ItemType::All => assert(item_type_of_name(item_type_name(ItemType::All))
            == Some(ItemType::All)),
        ItemType::UniProtID => assert(item_type_of_name(item_type_name(ItemType::UniProtID))
            == Some(ItemType::UniProtID)),
        ItemType::ProteinGeneName => assert(item_type_of_name(item_type_name(
            ItemType::ProteinGeneName,
        )) == Some(ItemType::ProteinGeneName)),
        ItemType::PMID => assert(item_type_of_name(item_type_name(ItemType::PMID))
            == Some(ItemType::PMID)),
    }
}

// ---------------------------------------------------------------------------
// PtmType
// ---------------------------------------------------------------------------

/// The canonical command-line token of each `PtmType` variant.
pub open spec fn ptm_type_token(t: PtmType) -> Seq<char> {
    match t {
        PtmType::Acetylation => "acetylation"@,
        PtmType::CGlycosylation => "c-glycosylation"@,
        PtmType::NGlycosylation => "n-glycosylation"@,
        PtmType::OGlycosylation => "o-glycosylation"@,
        PtmType::SGlycosylation => "s-glycosylation"@,
        PtmType::Methylation => "methylation"@,
        PtmType::Myristoylation => "myristoylation"@,
        PtmType::SNitrosylation => "s-nitrosylation"@,
        PtmType::Phosphorylation => "phosphorylation"@,
        PtmType::Sumoylation => "sumoylation"@,
        PtmType::Ubiquitination => "ubiquitination"@,
    }
}

/// The variant selected by a token, if any.
pub open spec fn ptm_type_of_token(s: Seq<char>) -> Option<PtmType> {
    if s == ptm_type_token(PtmType::Acetylation) {
        Some(PtmType::Acetylation)
    } else if s == ptm_type_token(PtmType::CGlycosylation) {
        Some(PtmType::CGlycosylation)
    } else if s == ptm_type_token(PtmType::NGlycosylation) {
        Some(PtmType::NGlycosylation)
    } else if s == ptm_type_token(PtmType::OGlycosylation) {
        Some(PtmType::OGlycosylation)
    } else if s == ptm_type_token(PtmType::SGlycosylation) {
        Some(PtmType::SGlycosylation)
    } else if s == ptm_type_token(PtmType::Methylation) {
        Some(PtmType::Methylation)
    } else if s == ptm_type_token(PtmType::Myristoylation) {
        Some(PtmType::Myristoylation)
    } else if s == ptm_type_token(PtmType::SNitrosylation) {
        Some(PtmType::SNitrosylation)
    } else if s == ptm_type_token(PtmType::Phosphorylation) {
        Some(PtmType::Phosphorylation)
    } else if s == ptm_type_token(PtmType::Sumoylation) {
        Some(PtmType::Sumoylation)
    } else if s == ptm_type_token(PtmType::Ubiquitination) {
        Some(PtmType::Ubiquitination)
    } else {
        None
    }
}

/// The valid token set of `PtmType`, in declaration order.
pub open spec fn ptm_type_tokens() -> Seq<Seq<char>> {
    seq![
        ptm_type_token(PtmType::Acetylation),
        ptm_type_token(PtmType::CGlycosylation),
        ptm_type_token(PtmType::NGlycosylation),
        ptm_type_token(PtmType::OGlycosylation),
        ptm_type_token(PtmType::SGlycosylation),
        ptm_type_token(PtmType::Methylation),
        ptm_type_token(PtmType::Myristoylation),
        ptm_type_token(PtmType::SNitrosylation),
        ptm_type_token(PtmType::Phosphorylation),
        ptm_type_token(PtmType::Sumoylation),
        ptm_type_token(PtmType::Ubiquitination),
    ]
}

/// The bare variant name of each `PtmType` variant: its wire form.
pub open spec fn ptm_type_name(t: PtmType) -> Seq<char> {
    match t {
        PtmType::Acetylation => "Acetylation"@,
        PtmType::CGlycosylation => "CGlycosylation"@,
        PtmType::NGlycosylation => "NGlycosylation"@,
        PtmType::OGlycosylation => "OGlycosylation"@,
        PtmType::SGlycosylation => "SGlycosylation"@,
        PtmType::Methylation => "Methylation"@,
        PtmType::Myristoylation => "Myristoylation"@,
        PtmType::SNitrosylation => "SNitrosylation"@,
        PtmType::Phosphorylation => "Phosphorylation"@,
        PtmType::Sumoylation => "Sumoylation"@,
        PtmType::Ubiquitination => "Ubiquitination"@,
    }
}

/// The variant whose wire name a string is, if any.
pub open spec fn ptm_type_of_name(s: Seq<char>) -> Option<PtmType> {
    if s == ptm_type_name(PtmType::Acetylation) {
        Some(PtmType::Acetylation)
    } else if s == ptm_type_name(PtmType::CGlycosylation) {
        Some(PtmType::CGlycosylation)
    } else if s == ptm_type_name(PtmType::NGlycosylation) {
        Some(PtmType::NGlycosylation)
    } else if s == ptm_type_name(PtmType::OGlycosylation) {
        Some(PtmType::OGlycosylation)
    } else if s == ptm_type_name(PtmType::SGlycosylation) {
        Some(PtmType::SGlycosylation)
    } else if s == ptm_type_name(PtmType::Methylation) {
        Some(PtmType::Methylation)
    } else if s == ptm_type_name(PtmType::Myristoylation) {
        Some(PtmType::Myristoylation)
    } else if s == ptm_type_name(PtmType::SNitrosylation) {
        Some(PtmType::SNitrosylation)
    } else if s == ptm_type_name(PtmType::Phosphorylation) {
        Some(PtmType::Phosphorylation)
    } else if s == ptm_type_name(PtmType::Sumoylation) {
        Some(PtmType::Sumoylation)
    } else if s == ptm_type_name(PtmType::Ubiquitination) {
        Some(PtmType::Ubiquitination)
    } else {
        None
    }
}

/// The display label of each `PtmType` variant: compound names gain a
/// hyphen after their leading letter; all others display as their bare name.
pub open spec fn ptm_type_display(t: PtmType) -> Seq<char> {
    match t {
        PtmType::CGlycosylation => "C-Glycosylation"@,
        PtmType::NGlycosylation => "N-Glycosylation"@,
        PtmType::OGlycosylation => "O-Glycosylation"@,
        PtmType::SGlycosylation => "S-Glycosylation"@,
        PtmType::SNitrosylation => "S-Nitrosylation"@,
        _ => ptm_type_name(t),
    }
}

impl PtmType {
    /// The canonical command-line token of this variant.
    pub fn token(&self) -> (s: String)
        ensures
            s@ == ptm_type_token(*self),
    {
        match self {
            PtmType::Acetylation => String::from_str("acetylation"),
            PtmType::CGlycosylation => String::from_str("c-glycosylation"),
            PtmType::NGlycosylation => String::from_str("n-glycosylation"),
            PtmType::OGlycosylation => String::from_str("o-glycosylation"),
            PtmType::SGlycosylation => String::from_str("s-glycosylation"),
            PtmType::Methylation => String::from_str("methylation"),
            PtmType::Myristoylation => String::from_str("myristoylation"),
            PtmType::SNitrosylation => String::from_str("s-nitrosylation"),
            PtmType::Phosphorylation => String::from_str("phosphorylation"),
            PtmType::Sumoylation => String::from_str("sumoylation"),
            PtmType::Ubiquitination => String::from_str("ubiquitination"),
        }
    }

    /// Maps a command-line token to its variant; any other string is
    /// rejected with `UnrecognizedToken`.
    pub fn from_token(s: &str) -> (r: Result<PtmType, UnrecognizedToken>)
        ensures
            match r {
                Ok(t) => ptm_type_of_token(s@) == Some(t),
                Err(e) => ptm_type_of_token(s@) is None && e.token@ == s@
                    && e.expected.deep_view() == ptm_type_tokens(),
            },
    {
        if str_eq(s, "acetylation") {
            Ok(PtmType::Acetylation)
        } else if str_eq(s, "c-glycosylation") {
            Ok(PtmType::CGlycosylation)
        } else if str_eq(s, "n-glycosylation") {
            Ok(PtmType::NGlycosylation)
        } else if str_eq(s, "o-glycosylation") {
            Ok(PtmType::OGlycosylation)
        } else if str_eq(s, "s-glycosylation") {
            Ok(PtmType::SGlycosylation)
        } else if str_eq(s, "methylation") {
            Ok(PtmType::Methylation)
        } else if str_eq(s, "myristoylation") {
            Ok(PtmType::Myristoylation)
        } else if str_eq(s, "s-nitrosylation") {
            Ok(PtmType::SNitrosylation)
        } else if str_eq(s, "phosphorylation") {
            Ok(PtmType::Phosphorylation)
        } else if str_eq(s, "sumoylation") {
            Ok(PtmType::Sumoylation)
        } else if str_eq(s, "ubiquitination") {
            Ok(PtmType::Ubiquitination)
        } else {
            let mut expected: Vec<String> = Vec::new();
            expected.push(String::from_str("acetylation"));
            expected.push(String::from_str("c-glycosylation"));
            expected.push(String::from_str("n-glycosylation"));
            expected.push(String::from_str("o-glycosylation"));
            expected.push(String::from_str("s-glycosylation"));
            expected.push(String::from_str("methylation"));
            expected.push(String::from_str("myristoylation"));
            expected.push(String::from_str("s-nitrosylation"));
            expected.push(String::from_str("phosphorylation"));
            expected.push(String::from_str("sumoylation"));
            expected.push(String::from_str("ubiquitination"));
            proof {
                assert(expected.deep_view() =~= ptm_type_tokens());
            }
            Err(UnrecognizedToken { token: s.to_owned(), expected })
        }
    }

    /// The wire name of this variant: its bare variant name.
    pub fn wire_name(&self) -> (s: String)
        ensures
            s@ == ptm_type_name(*self),
    {
        match self {
            PtmType::Acetylation => String::from_str("Acetylation"),
            PtmType::CGlycosylation => String::from_str("CGlycosylation"),
            PtmType::NGlycosylation => String::from_str("NGlycosylation"),
            PtmType::OGlycosylation => String::from_str("OGlycosylation"),
            PtmType::SGlycosylation => String::from_str("SGlycosylation"),
            PtmType::Methylation => String::from_str("Methylation"),
            PtmType::Myristoylation => String::from_str("Myristoylation"),
            PtmType::SNitrosylation => String::from_str("SNitrosylation"),
            PtmType::Phosphorylation => String::from_str("Phosphorylation"),
            PtmType::Sumoylation => String::from_str("Sumoylation"),
            PtmType::Ubiquitination => String::from_str("Ubiquitination"),
        }
    }

    /// Maps a wire name back to its variant.
    pub fn from_wire_name(s: &str) -> (r: Option<PtmType>)
        ensures
            r == ptm_type_of_name(s@),
    {
        if str_eq(s, "Acetylation") {
            Some(PtmType::Acetylation)
        } else if str_eq(s, "CGlycosylation") {
            Some(PtmType::CGlycosylation)
        } else if str_eq(s, "NGlycosylation") {
            Some(PtmType::NGlycosylation)
        } else if str_eq(s, "OGlycosylation") {
            Some(PtmType::OGlycosylation)
        } else if str_eq(s, "SGlycosylation") {
            Some(PtmType::SGlycosylation)
        } else if str_eq(s, "Methylation") {
            Some(PtmType::Methylation)
        } else if str_eq(s, "Myristoylation") {
            Some(PtmType::Myristoylation)
        } else if str_eq(s, "SNitrosylation") {
            Some(PtmType::SNitrosylation)
        } else if str_eq(s, "Phosphorylation") {
            Some(PtmType::Phosphorylation)
        } else if str_eq(s, "Sumoylation") {
            Some(PtmType::Sumoylation)
        } else if str_eq(s, "Ubiquitination") {
            Some(PtmType::Ubiquitination)
        } else {
            None
        }
    }

    /// The human-readable label of this variant.
    pub fn display(&self) -> (s: String)
        ensures
            s@ == ptm_type_display(*self),
    {
        match self {
            PtmType::CGlycosylation => String::from_str("C-Glycosylation"),
            PtmType::NGlycosylation => String::from_str("N-Glycosylation"),
            PtmType::OGlycosylation => String::from_str("O-Glycosylation"),
            PtmType::SGlycosylation => String::from_str("S-Glycosylation"),
            PtmType::SNitrosylation => String::from_str("S-Nitrosylation"),
            _ => self.wire_name(),
        }
    }
}

/// Law: every `PtmType` token selects exactly the variant it belongs to.
pub proof fn lemma_ptm_type_token_round_trip(t: PtmType)
    ensures
        ptm_type_of_token(ptm_type_token(t)) == Some(t),
{
    reveal_strlit("acetylation");
    reveal_strlit("c-glycosylation");
    reveal_strlit("n-glycosylation");
    reveal_strlit("o-glycosylation");
    reveal_strlit("s-glycosylation");
    reveal_strlit("methylation");
    reveal_strlit("myristoylation");
    reveal_strlit("s-nitrosylation");
    reveal_strlit("phosphorylation");
    reveal_strlit("sumoylation");
    reveal_strlit("ubiquitination");
    assert(("acetylation"@).len() == 11 && ("acetylation"@)[0] == 'a');
    assert(("c-glycosylation"@).len() == 15 && ("c-glycosylation"@)[0] == 'c');
    assert(("n-glycosylation"@).len() == 15 && ("n-glycosylation"@)[0] == 'n');
    assert(("o-glycosylation"@).len() == 15 && ("o-glycosylation"@)[0] == 'o');
    assert(("s-glycosylation"@).len() == 15 && ("s-glycosylation"@)[0] == 's'
        && ("s-glycosylation"@)[2] == 'g');
    assert(("methylation"@).len() == 11 && ("methylation"@)[0] == 'm');
    assert(("myristoylation"@).len() == 14 && ("myristoylation"@)[0] == 'm');
    assert(("s-nitrosylation"@).len() == 15 && ("s-nitrosylation"@)[0] == 's'
        && ("s-nitrosylation"@)[2] == 'n');
    assert(("phosphorylation"@).len() == 15 && ("phosphorylation"@)[0] == 'p');
    assert(("sumoylation"@).len() == 11 && ("sumoylation"@)[0] == 's');
    assert(("ubiquitination"@).len() == 14 && ("ubiquitination"@)[0] == 'u');
    match t {
        PtmType::Acetylation => assert(ptm_type_of_token(ptm_type_token(PtmType::Acetylation))
            == Some(PtmType::Acetylation)),
        PtmType::CGlycosylation => assert(ptm_type_of_token(ptm_type_token(
            PtmType::CGlycosylation,
        )) == Some(PtmType::CGlycosylation)),
        PtmType::NGlycosylation => assert(ptm_type_of_token(ptm_type_token(
            PtmType::NGlycosylation,
        )) == Some(PtmType::NGlycosylation)),
        PtmType::OGlycosylation => assert(ptm_type_of_token(ptm_type_token(
            PtmType::OGlycosylation,
        )) == Some(PtmType::OGlycosylation)),
        PtmType::SGlycosylation => assert(ptm_type_of_token(ptm_type_token(
            PtmType::SGlycosylation,
        )) == Some(PtmType::SGlycosylation)),
        PtmType::Methylation => assert(ptm_type_of_token(ptm_type_token(PtmType::Methylation))
            == Some(PtmType::Methylation)),
        PtmType::Myristoylation => assert(ptm_type_of_token(ptm_type_token(
            PtmType::Myristoylation,
        )) == Some(PtmType::Myristoylation)),
        PtmType::SNitrosylation => assert(ptm_type_of_token(ptm_type_token(
            PtmType::SNitrosylation,
        )) == Some(PtmType::SNitrosylation)),
        PtmType::Phosphorylation => assert(ptm_type_of_token(ptm_type_token(
            PtmType::Phosphorylation,
        )) == Some(PtmType::Phosphorylation)),
        PtmType::Sumoylation => assert(ptm_type_of_token(ptm_type_token(PtmType::Sumoylation))
            == Some(PtmType::Sumoylation)),
        PtmType::Ubiquitination => assert(ptm_type_of_token(ptm_type_token(
            PtmType::Ubiquitination,
        )) == Some(PtmType::Ubiquitination)),
    }
}

/// Law: every `PtmType` wire name maps back to the variant it names, so a
/// serialize–deserialize round trip of any variant yields an equal value.
pub proof fn lemma_ptm_type_name_round_trip(t: PtmType)
    ensures
        ptm_type_of_name(ptm_type_name(t)) == Some(t),
{
    reveal_strlit("Acetylation");
    reveal_strlit("CGlycosylation");
    reveal_strlit("NGlycosylation");
    reveal_strlit("OGlycosylation");
    reveal_strlit("SGlycosylation");
    reveal_strlit("Methylation");
    reveal_strlit("Myristoylation");
    reveal_strlit("SNitrosylation");
    reveal_strlit("Phosphorylation");
    reveal_strlit("Sumoylation");
    reveal_strlit("Ubiquitination");
    assert(("Acetylation"@).len() == 11 && ("Acetylation"@)[0] == 'A');
    assert(("CGlycosylation"@).len() == 14 && ("CGlycosylation"@)[0] == 'C');
    assert(("NGlycosylation"@).len() == 14 && ("NGlycosylation"@)[0] == 'N');
    assert(("OGlycosylation"@).len() == 14 && ("OGlycosylation"@)[0] == 'O');
    assert(("SGlycosylation"@).len() == 14 && ("SGlycosylation"@)[0] == 'S'
        && ("SGlycosylation"@)[1] == 'G');
    assert(("Methylation"@).len() == 11 && ("Methylation"@)[0] == 'M');
    assert(("Myristoylation"@).len() == 14 && ("Myristoylation"@)[0] == 'M');
    assert(("SNitrosylation"@).len() == 14 && ("SNitrosylation"@)[0] == 'S'
        && ("SNitrosylation"@)[1] == 'N');
    assert(("Phosphorylation"@).len() == 15 && ("Phosphorylation"@)[0] == 'P');
    assert(("Sumoylation"@).len() == 11 && ("Sumoylation"@)[0] == 'S');
    assert(("Ubiquitination"@).len() == 14 && ("Ubiquitination"@)[0] == 'U');
    match t {
        PtmType::Acetylation => assert(ptm_type_of_name(ptm_type_name(PtmType::Acetylation))
            == Some(PtmType::Acetylation)),
        PtmType::CGlycosylation => assert(ptm_type_of_name(ptm_type_name(
            PtmType::CGlycosylation,
        )) == Some(PtmType::CGlycosylation)),
        PtmType::NGlycosylation => assert(ptm_type_of_name(ptm_type_name(
            PtmType::NGlycosylation,
        )) == Some(PtmType::NGlycosylation)),
        PtmType::OGlycosylation => assert(ptm_type_of_name(ptm_type_name(
            PtmType::OGlycosylation,
        )) == Some(PtmType::OGlycosylation)),
        PtmType::SGlycosylation => assert(ptm_type_of_name(ptm_type_name(
            PtmType::SGlycosylation,
        )) == Some(PtmType::SGlycosylation)),
        PtmType::Methylation => assert(ptm_type_of_name(ptm_type_name(PtmType::Methylation))
            == Some(PtmType::Methylation)),
        PtmType::Myristoylation => assert(ptm_type_of_name(ptm_type_name(
            PtmType::Myristoylation,
        )) == Some(PtmType::Myristoylation)),
        PtmType::SNitrosylation => assert(ptm_type_of_name(ptm_type_name(
            PtmType::SNitrosylation,
        )) == Some(PtmType::SNitrosylation)),
        PtmType::Phosphorylation => assert(ptm_type_of_name(ptm_type_name(
            PtmType::Phosphorylation,
        )) == Some(PtmType::Phosphorylation)),
        PtmType::Sumoylation => assert(ptm_type_of_name(ptm_type_name(PtmType::Sumoylation))
            == Some(PtmType::Sumoylation)),
        PtmType::Ubiquitination => assert(ptm_type_of_name(ptm_type_name(
            PtmType::Ubiquitination,
        )) == Some(PtmType::Ubiquitination)),
    }
}

// ---------------------------------------------------------------------------
// Role
// ---------------------------------------------------------------------------

/// The canonical command-line token of each `Role` variant.
pub open spec fn role_token(t: Role) -> Seq<char> {
    match t {
        Role::Enzyme => "enzyme"@,
        Role::Substrate => "substrate"@,
        Role::Both => "both"@,
    }
}

/// The variant selected by a token, if any.
pub open spec fn role_of_token(s: Seq<char>) -> Option<Role> {
    if s == role_token(Role::Enzyme) {
        Some(Role::Enzyme)
    } else if s == role_token(Role::Substrate) {
        Some(Role::Substrate)
    } else if s == role_token(Role::Both) {
        Some(Role::Both)
    } else {
        None
    }
}

/// The valid token set of `Role`, in declaration order.
pub open spec fn role_tokens() -> Seq<Seq<char>> {
    seq![role_token(Role::Enzyme), role_token(Role::Substrate), role_token(Role::Both)]
}

/// The bare variant name of each `Role` variant: its wire form.
pub open spec fn role_name(t: Role) -> Seq<char> {
    match t {
        Role::Enzyme => "Enzyme"@,
        Role::Substrate => "Substrate"@,
        Role::Both => "Both"@,
    }
}

/// The variant whose wire name a string is, if any.
pub open spec fn role_of_name(s: Seq<char>) -> Option<Role> {
    if s == role_name(Role::Enzyme) {
        Some(Role::Enzyme)
    } else if s == role_name(Role::Substrate) {
        Some(Role::Substrate)
    } else if s == role_name(Role::Both) {
        Some(Role::Both)
    } else {
        None
    }
}

/// The display label of each `Role` variant: `Both` reads
/// "Enzyme or Substrate"; the others display as their bare name.
pub open spec fn role_display(t: Role) -> Seq<char> {
    match t {
        Role::Both => "Enzyme or Substrate"@,
        _ => role_name(t),
    }
}

impl Role {
    /// The canonical command-line token of this variant.
    pub fn token(&self) -> (s: String)
        ensures
            s@ == role_token(*self),
    {
        match self {
            Role::Enzyme => String::from_str("enzyme"),
            Role::Substrate => String::from_str("substrate"),
            Role::Both => String::from_str("both"),
        }
    }

    /// Maps a command-line token to its variant; any other string is
    /// rejected with `UnrecognizedToken`.
    pub fn from_token(s: &str) -> (r: Result<Role, UnrecognizedToken>)
        ensures
            match r {
                Ok(t) => role_of_token(s@) == Some(t),
                Err(e) => role_of_token(s@) is None && e.token@ == s@
                    && e.expected.deep_view() == role_tokens(),
            },
    {
        if str_eq(s, "enzyme") {
            Ok(Role::Enzyme)
        } else if str_eq(s, "substrate") {
            Ok(Role::Substrate)
        } else if str_eq(s, "both") {
            Ok(Role::Both)
        } else {
            let mut expected: Vec<String> = Vec::new();
            expected.push(String::from_str("enzyme"));
            expected.push(String::from_str("substrate"));
            expected.push(String::from_str("both"));
            proof {
                assert(expected.deep_view() =~= role_tokens());
            }
            Err(UnrecognizedToken { token: s.to_owned(), expected })
        }
    }

    /// The wire name of this variant: its bare variant name.
    pub fn wire_name(&self) -> (s: String)
        ensures
            s@ == role_name(*self),
    {
        match self {
            Role::Enzyme => String::from_str("Enzyme"),
            Role::Substrate => String::from_str("Substrate"),
            Role::Both => String::from_str("Both"),
        }
    }

    /// Maps a wire name back to its variant.
    pub fn from_wire_name(s: &str) -> (r: Option<Role>)
        ensures
            r == role_of_name(s@),
    {
        if str_eq(s, "Enzyme") {
            Some(Role::Enzyme)
        } else if str_eq(s, "Substrate") {
            Some(Role::Substrate)
        } else if str_eq(s, "Both") {
            Some(Role::Both)
        } else {
            None
        }
    }

    /// The human-readable label of this variant.
    pub fn display(&self) -> (s: String)
        ensures
            s@ == role_display(*self),
    {
        match self {
            Role::Both => String::from_str("Enzyme or Substrate"),
            _ => self.wire_name(),
        }
    }
}

/// Law: every `Role` token selects exactly the variant it belongs to.
pub proof fn lemma_role_token_round_trip(t: Role)
    ensures
        role_of_token(role_token(t)) == Some(t),
{
    reveal_strlit("enzyme");
    reveal_strlit("substrate");
    reveal_strlit("both");
    assert(("enzyme"@).len() == 6);
    assert(("substrate"@).len() == 9);
    assert(("both"@).len() == 4);
    match t {
        Role::Enzyme => assert(role_of_token(role_token(Role::Enzyme)) == Some(Role::Enzyme)),
        Role::Substrate => assert(role_of_token(role_token(Role::Substrate))
            == Some(Role::Substrate)),
        Role::Both => assert(role_of_token(role_token(Role::Both)) == Some(Role::Both)),
    }
}

/// Law: every `Role` wire name maps back to the variant it names.
pub proof fn lemma_role_name_round_trip(t: Role)
    ensures
        role_of_name(role_name(t)) == Some(t),
{
    reveal_strlit("Enzyme");
    reveal_strlit("Substrate");
    reveal_strlit("Both");
    assert(("Enzyme"@).len() == 6);
    assert(("Substrate"@).len() == 9);
    assert(("Both"@).len() == 4);
    match t {
        Role::Enzyme => assert(role_of_name(role_name(Role::Enzyme)) == Some(Role::Enzyme)),
        Role::Substrate => assert(role_of_name(role_name(Role::Substrate))
            == Some(Role::Substrate)),
        Role::Both => assert(role_of_name(role_name(Role::Both)) == Some(Role::Both)),
    }
}

} // verus!
