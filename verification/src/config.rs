//! The configuration schema: a *partial* type whose fields are all optional,
//! produced only by parsing, and a *complete* type obtained from it by a
//! total merge that substitutes a fixed default for every absent field.

use vstd::prelude::*;
use vstd::string::StringExecFns;
use crate::toml_text::{TomlScalar, TomlScalarV, doc_find, doc_lookup, toml_doc, toml_entries};

verus! {

/// A partial configuration schema: every field optional, a parse target.
///
/// `spec_parse` is the type's parsing policy on a whole text: `None` means
/// the text is rejected (malformed syntax, or a present field of the wrong
/// type); a rejected text never yields a partial value. Empty text must be
/// accepted (it carries no field at all), which `parse_empty_accepted`
/// obliges every implementation to prove.
pub trait ConfigOptional: View + Sized {
    spec fn spec_parse(text: Seq<char>) -> Option<Self::V>;

    proof fn parse_empty_accepted(text: Seq<char>)
        requires
            text.len() == 0,
        ensures
            Self::spec_parse(text) is Some,
    ;

    fn parse_toml(text: &str) -> (r: Option<Self>)
        ensures
            (match r {
                Some(partial) => Self::spec_parse(text@) == Some(partial@),
                None => Self::spec_parse(text@) is None,
            }),
    ;
}

/// A complete configuration type that can be produced from a partial one.
///
/// `create_from_optional` is total: any partial value, the all-absent one
/// included, yields a complete value, with no failure path and no I/O.
pub trait Config<Optional: ConfigOptional>: View + Sized {
    spec fn spec_from_optional(optional: Optional::V) -> Self::V;

    fn create_from_optional(optional: Optional) -> (r: Self)
        ensures
            r@ == Self::spec_from_optional(optional@),
    ;
}

/// The outcome of reading one field out of a parsed TOML document.
pub enum FieldOutcome<T> {
    Absent,
    Present(T),
    Mismatch,
}

/// The complete application configuration.
pub struct Conf {
    pub something: u32,
    pub what: String,
}

/// The mathematical value of a `Conf`.
pub struct ConfV {
    pub something: u32,
    pub what: Seq<char>,
}

impl View for Conf {
    type V = ConfV;

    open spec fn view(&self) -> ConfV {
        ConfV { something: self.something, what: self.what@ }
    }
}

/// The partial counterpart of `Conf`: both fields optional.
pub struct OptConf {
    pub something: Option<u32>,
    pub what: Option<String>,
}

/// The mathematical value of an `OptConf`.
pub struct OptConfV {
    pub something: Option<u32>,
    pub what: Option<Seq<char>>,
}

impl View for OptConf {
    type V = OptConfV;

    open spec fn view(&self) -> OptConfV {
        OptConfV {
            something: self.something,
            what: match self.what {
                Some(w) => Some(w@),
                None => None,
            },
        }
    }
}

/// The partial value carried by text with no fields at all.
pub open spec fn all_absent() -> OptConfV {
    OptConfV { something: None, what: None }
}

/// Reads a `u32` field out of a looked-up TOML value: absent when the key is
/// missing, present when it is an integer in range, a mismatch otherwise.
pub open spec fn spec_u32_field(value: Option<TomlScalarV>) -> FieldOutcome<u32> {
    match value {
        None => FieldOutcome::Absent,
        Some(TomlScalarV::Int(i)) => if 0 <= i as int && i as int <= u32::MAX as int {
            FieldOutcome::Present(i as u32)
        } else {
            FieldOutcome::Mismatch
        },
        Some(_) => FieldOutcome::Mismatch,
    }
}

/// Reads a text field out of a looked-up TOML value.
pub open spec fn spec_text_field(value: Option<TomlScalarV>) -> FieldOutcome<Seq<char>> {
    match value {
        None => FieldOutcome::Absent,
        Some(TomlScalarV::Text(s)) => FieldOutcome::Present(s),
        Some(_) => FieldOutcome::Mismatch,
    }
}

impl ConfigOptional for OptConf {
    /// Empty text carries no field; any other text is handed to the TOML
    /// parser, and a present field of the wrong type rejects the whole text.
    open spec fn spec_parse(text: Seq<char>) -> Option<OptConfV> {
        if text.len() == 0 {
            Some(all_absent())
        } else {
            match toml_doc(text) {
                None => None,
                Some(doc) => {
                    let something = spec_u32_field(doc_lookup(doc, "something"@));
                    let what = spec_text_field(doc_lookup(doc, "what"@));
                    if something is Mismatch || what is Mismatch {
                        None
                    } else {
                        Some(OptConfV {
                            something: match something {
                                FieldOutcome::Present(v) => Some(v),
                                _ => None,
                            },
                            what: match what {
                                FieldOutcome::Present(v) => Some(v),
                                _ => None,
                            },
                        })
                    }
                },
            }
        }
    }

    proof fn parse_empty_accepted(text: Seq<char>) {
    }

    fn parse_toml(text: &str) -> (r: Option<OptConf>) {
        if text.is_empty() {
            return Some(OptConf { something: None, what: None });
        }
        let entries = match toml_entries(text) {
            Some(entries) => entries,
            None => {
                return None;
            },
        };
        let something: Option<u32> = match doc_find(&entries, &String::from_str("something")) {
            None => None,
            Some(scalar) => match scalar {
                TomlScalar::Int(i) => {
                    if 0 <= *i && *i <= 4294967295i64 {
                        Some(*i as u32)
                    } else {
                        return None;
                    }
                },
                _ => {
                    return None;
                },
            },
        };
        let what: Option<String> = match doc_find(&entries, &String::from_str("what")) {
            None => None,
            Some(scalar) => match scalar {
                TomlScalar::Text(s) => Some(s.clone()),
                _ => {
                    return None;
                },
            },
        };
        Some(OptConf { something, what })
    }
}

impl Config<OptConf> for Conf {
    /// The merge policy: a present field is used verbatim; an absent
    /// `something` becomes `0`, an absent `what` becomes `"pingpang"`.
    open spec fn spec_from_optional(optional: OptConfV) -> ConfV {
        ConfV {
            something: match optional.something {
                Some(v) => v,
                None => 0u32,
            },
            what: match optional.what {
                Some(v) => v,
                None => "pingpang"@,
            },
        }
    }

    fn create_from_optional(optional: OptConf) -> (r: Conf) {
        let something = match optional.something {
            Some(v) => v,
            None => 0u32,
        };
        let what = match optional.what {
            Some(v) => v,
            None => String::from_str("pingpang"),
        };
        Conf { something, what }
    }
}

} // verus!
