//! The closed set of recognized specification versions, parsing of untrusted
//! version strings, and per-version attribute-name resolution.

use vstd::prelude::*;

verus! {

/// A recognized revision of the event specification.
///
/// The set of variants is fixed at build time; values are immutable and are
/// obtained either as constants or through [`SpecVersion::try_from`].
#[derive(PartialEq, Eq, Hash, Debug, Clone, Structural)]
pub enum SpecVersion {
    V03,
    V10,
}

impl SpecVersion {
    /// The canonical string identifier of this version, as a character sequence.
    pub open spec fn spec_identifier(self) -> Seq<char> {
        match self {
            SpecVersion::V03 => "0.3"@,
            SpecVersion::V10 => "1.0"@,
        }
    }

    /// The attribute names declared by this revision of the specification,
    /// as character sequences, in the revision's declaration order.
    pub open spec fn spec_attribute_names(self) -> Seq<Seq<char>> {
        match self {
            SpecVersion::V03 => seq![
                "specversion"@,
                "id"@,
                "type"@,
                "source"@,
                "datacontenttype"@,
                "schemaurl"@,
                "subject"@,
                "time"@,
            ],
            SpecVersion::V10 => seq![
                "specversion"@,
                "id"@,
                "type"@,
                "source"@,
                "datacontenttype"@,
                "dataschema"@,
                "subject"@,
                "time"@,
            ],
        }
    }

    /// The canonical string identifier of this version.
    pub fn as_str(&self) -> (r: &str)
        ensures
            r@ == self.spec_identifier(),
    {
        match self {
            SpecVersion::V03 => "0.3",
            SpecVersion::V10 => "1.0",
        }
    }

    /// All attribute names defined by this version's specification table,
    /// in the specification's declaration order.
    pub fn attribute_names(&self) -> (r: Vec<&'static str>)
        ensures
            names_view(r@) == self.spec_attribute_names(),
    {
        let r: Vec<&'static str> = match self {
            SpecVersion::V03 => vec![
                "specversion",
                "id",
                "type",
                "source",
                "datacontenttype",
                "schemaurl",
                "subject",
                "time",
            ],
            SpecVersion::V10 => vec![
                "specversion",
                "id",
                "type",
                "source",
                "datacontenttype",
                "dataschema",
                "subject",
                "time",
            ],
        };
        proof {
            assert(names_view(r@) =~= self.spec_attribute_names());
        }
        r
    }

    /// The attribute names of every known version, in the fixed enumeration
    /// order, concatenated; a name common to several revisions appears once
    /// per revision.
    pub open spec fn spec_all_attribute_names() -> Seq<Seq<char>> {
        SpecVersion::V03.spec_attribute_names() + SpecVersion::V10.spec_attribute_names()
    }

    /// All attribute names of all known versions, one version after the
    /// other in the fixed enumeration order.
    ///
    /// The result may contain duplicate names: a name that several revisions
    /// declare appears once per revision. Callers needing a deduplicated set
    /// must perform that reduction themselves.
    pub fn all_attribute_names() -> (r: Vec<&'static str>)
        ensures
            names_view(r@) == SpecVersion::spec_all_attribute_names(),
    {
        let mut r = SpecVersion::V03.attribute_names();
        let mut rest = SpecVersion::V10.attribute_names();
        r.append(&mut rest);
        proof {
            assert(names_view(r@) =~= SpecVersion::spec_all_attribute_names());
        }
        r
    }

    /// Parses an arbitrary, untrusted string into the closed enumeration.
    ///
    /// Succeeds exactly on the canonical identifiers; any other input is
    /// rejected with an error carrying that input unmodified.
    pub fn try_from(value: &str) -> (r: Result<SpecVersion, UnknownSpecVersion>)
        ensures
            match spec_parse(value@) {
                Some(v) => r matches Ok(w) && w == v,
                None => r matches Err(e) && e.spec_input() == value@,
            },
    {
        proof {
            reveal_strlit("0.3");
            reveal_strlit("1.0");
        }
        let n: usize = value.unicode_len();
        if n == 3 {
            let c0 = value.get_char(0);
            let c1 = value.get_char(1);
            let c2 = value.get_char(2);
            if c0 == '0' && c1 == '.' && c2 == '3' {
                proof {
                    assert(value@ =~= "0.3"@);
                }
                return Ok(SpecVersion::V03);
            }
            if c0 == '1' && c1 == '.' && c2 == '0' {
                proof {
                    assert(value@ =~= "1.0"@);
                }
                return Ok(SpecVersion::V10);
            }
        }
        Err(UnknownSpecVersion { spec_version_value: value.to_owned() })
    }
}

/// The character sequences of a sequence of attribute-name strings.
pub open spec fn names_view(names: Seq<&str>) -> Seq<Seq<char>> {
    names.map_values(|s: &str| s@)
}

/// What parsing a version string yields: the variant whose canonical
/// identifier matches the input exactly (no trimming, no case folding),
/// checked in the fixed enumeration order, or nothing on no match.
pub open spec fn spec_parse(s: Seq<char>) -> Option<SpecVersion> {
    if s == SpecVersion::V03.spec_identifier() {
        Some(SpecVersion::V03)
    } else if s == SpecVersion::V10.spec_identifier() {
        Some(SpecVersion::V10)
    } else {
        None
    }
}

/// Error describing a failed parse of a version string.
///
/// It carries the offending input verbatim for diagnostics and has no other
/// state; recovery is entirely the caller's responsibility.
#[derive(Debug)]
pub struct UnknownSpecVersion {
    spec_version_value: String,
}

impl UnknownSpecVersion {
    /// The offending input, exactly as it was given to the parse.
    pub closed spec fn spec_input(self) -> Seq<char> {
        self.spec_version_value@
    }

    /// The offending input, exactly as it was given to the parse.
    pub fn input_value(&self) -> (r: &str)
        ensures
            r@ == self.spec_input(),
    {
        self.spec_version_value.as_str()
    }

    /// A diagnostic message naming the offending input.
    pub fn message(&self) -> (r: String)
        ensures
            r@ == "Invalid specversion "@ + self.spec_input(),
    {
        let m = String::from_str("Invalid specversion ");
        m.concat(self.spec_version_value.as_str())
    }
}

/// Round trip: parsing a version's own canonical identifier yields exactly
/// that version.
pub proof fn lemma_parse_identifier_round_trip(v: SpecVersion)
    ensures
        spec_parse(v.spec_identifier()) == Some(v),
{
    reveal_strlit("0.3");
    reveal_strlit("1.0");
    assert("0.3"@[0] == '0');
    assert("1.0"@[0] == '1');
    assert("0.3"@ != "1.0"@);
}

/// Distinct versions have distinct canonical identifiers. Together with the
/// parse contract, values parsed from equal strings are equal, and values
/// carrying different identifiers are never equal.
pub proof fn lemma_identifier_injective(a: SpecVersion, b: SpecVersion)
    ensures
        a != b ==> a.spec_identifier() != b.spec_identifier(),
{
    reveal_strlit("0.3");
    reveal_strlit("1.0");
    assert("0.3"@[0] == '0');
    assert("1.0"@[0] == '1');
    assert("0.3"@ != "1.0"@);
}

/// Each version's own attribute table is non-empty and holds no duplicate
/// names.
pub proof fn lemma_attribute_names_nonempty_no_duplicates(v: SpecVersion)
    ensures
        v.spec_attribute_names().len() > 0,
        forall|i: int, j: int|
            0 <= i < j < v.spec_attribute_names().len()
                ==> v.spec_attribute_names()[i] != v.spec_attribute_names()[j],
{
    reveal_strlit("specversion");
    reveal_strlit("id");
    reveal_strlit("type");
    reveal_strlit("source");
    reveal_strlit("datacontenttype");
    reveal_strlit("schemaurl");
    reveal_strlit("dataschema");
    reveal_strlit("subject");
    reveal_strlit("time");
    assert("specversion"@.len() == 11);
    assert("id"@.len() == 2);
    assert("type"@.len() == 4);
    assert("source"@.len() == 6);
    assert("datacontenttype"@.len() == 15);
    assert("schemaurl"@.len() == 9);
    assert("dataschema"@.len() == 10);
    assert("subject"@.len() == 7);
    assert("time"@.len() == 4);
    assert("type"@[1] == 'y');
    assert("time"@[1] == 'i');
    assert("type"@ != "time"@);
    let names = v.spec_attribute_names();
    assert(names.len() == 8);
    assert forall|i: int, j: int| 0 <= i < j < names.len() implies names[i] != names[j] by {
        assert(names[0] == "specversion"@);
        assert(names[1] == "id"@);
        assert(names[2] == "type"@);
        assert(names[3] == "source"@);
        assert(names[4] == "datacontenttype"@);
        assert(names[6] == "subject"@);
        assert(names[7] == "time"@);
        match v {
            SpecVersion::V03 => {
                assert(names[5] == "schemaurl"@);
            },
            SpecVersion::V10 => {
                assert(names[5] == "dataschema"@);
            },
        }
    }
}

/// The combined listing over all versions has exactly the summed length of
/// the per-version tables: a name shared by several revisions is kept once
/// per revision, never deduplicated.
pub proof fn lemma_all_attribute_names_len()
    ensures
        SpecVersion::spec_all_attribute_names().len() == SpecVersion::V03.spec_attribute_names().len()
            + SpecVersion::V10.spec_attribute_names().len(),
{
}

} // verus!
