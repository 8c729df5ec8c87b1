use vstd::prelude::*;

verus! {

/// What a cell holds: a mine or nothing.
#[derive(Clone, Copy, Debug, PartialEq, Eq, Structural)]
pub enum Kind {
    BOMB,
    EMPTY,
}

/// The label shown for each kind.
pub open spec fn kind_label(k: Kind) -> Seq<char> {
    match k {
        Kind::BOMB => "Bomb"@,
        Kind::EMPTY => "Empty"@,
    }
}

/// The kind that a label names once it has been lowercased: only "bomb" names a mine,
/// and every other text falls back to an empty cell.
pub open spec fn kind_of_folded(folded: Seq<char>) -> Kind {
    if folded == "bomb"@ {
        Kind::BOMB
    } else {
        Kind::EMPTY
    }
}

/// The lowercase form of a text, as `str::to_lowercase` computes it.
pub uninterp spec fn lower_of(s: Seq<char>) -> Seq<char>;

/// Relies on `str::to_lowercase`: its result depends on the characters of the text alone.
#[verifier::external_body]
fn lowercase(s: &str) -> (r: String)
    ensures
        r@ == lower_of(s@),
{
    s.to_lowercase()
}

impl Kind {
    /// The label of this kind: "Bomb" or "Empty".
    pub fn label(&self) -> (r: String)
        ensures
            r@ == kind_label(*self),
    {
        match self {
            Kind::BOMB => "Bomb".to_owned(),
            Kind::EMPTY => "Empty".to_owned(),
        }
    }

    /// Reads a kind from a label that is already lowercase.
    pub fn from_folded(folded: &str) -> (r: Kind)
        ensures
            r == kind_of_folded(folded@),
    {
        let bomb = "bomb".to_owned();
        let text = folded.to_owned();
        if text == bomb {
            Kind::BOMB
        } else {
            Kind::EMPTY
        }
    }
}

/// Reading a label ignores case; any text but "bomb" gives an empty cell.
impl From<String> for Kind {
    fn from(value: String) -> (r: Kind) {
        let folded = lowercase(value.as_str());
        Kind::from_folded(folded.as_str())
    }
}

impl vstd::std_specs::convert::FromSpecImpl<String> for Kind {
    open spec fn obeys_from_spec() -> bool {
        true
    }

    open spec fn from_spec(v: String) -> Kind {
        kind_of_folded(lower_of(v@))
    }
}

/// A kind turns into its label; `Kind::label` states which text that is.
impl From<Kind> for String {
    fn from(value: Kind) -> (r: String) {
        value.label()
    }
}

impl vstd::std_specs::convert::FromSpecImpl<Kind> for String {
    open spec fn obeys_from_spec() -> bool {
        false
    }

    open spec fn from_spec(v: Kind) -> String {
        arbitrary()
    }
}

} // verus!
