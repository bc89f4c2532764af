//! The configuration that feeds the registry: a parsed configuration value
//! must be an array of two-element string arrays (name, executable path);
//! anything else is refused with a message naming the offending entry.

use vstd::prelude::*;
use vstd::string::StringExecFns;

use crate::digits::{dec_str, u64_to_string};

verus! {

/// A parsed configuration value, reduced to what the registry loader
/// reads: text, an array, or anything else.
pub enum ConfigValue {
    Text(String),
    List(Vec<ConfigValue>),
    Other,
}

/// Why a configuration was refused. The index counts entries from zero;
/// messages name the entry counting from one.
#[derive(Debug)]
pub enum ConfigError {
    NotAnArray,
    EntryNotAnArray { index: usize },
    EntryWrongArity { index: usize },
    EntryFirstNotText { index: usize },
    EntrySecondNotText { index: usize },
}

impl ConfigError {
    /// The entry number named in the message must be representable.
    pub open spec fn index_fits(self) -> bool {
        match self {
            ConfigError::NotAnArray => true,
            ConfigError::EntryNotAnArray { index } => index < usize::MAX,
            ConfigError::EntryWrongArity { index } => index < usize::MAX,
            ConfigError::EntryFirstNotText { index } => index < usize::MAX,
            ConfigError::EntrySecondNotText { index } => index < usize::MAX,
        }
    }
}

/// The fault of one entry, if it has one: it must be an array of exactly
/// two texts.
pub open spec fn entry_fault(e: ConfigValue, i: int) -> Option<ConfigError> {
    match e {
        ConfigValue::List(items) => if items@.len() != 2 {
            Some(ConfigError::EntryWrongArity { index: i as usize })
        } else if !(items@[0] is Text) {
            Some(ConfigError::EntryFirstNotText { index: i as usize })
        } else if !(items@[1] is Text) {
            Some(ConfigError::EntrySecondNotText { index: i as usize })
        } else {
            None
        },
        _ => Some(ConfigError::EntryNotAnArray { index: i as usize }),
    }
}

/// The (name, path) pair a well-formed entry holds.
pub open spec fn entry_pair(e: ConfigValue) -> (Seq<char>, Seq<char>)
    recommends
        entry_fault(e, 0) is None,
{
    match e {
        ConfigValue::List(items) => (items@[0]->Text_0@, items@[1]->Text_0@),
        _ => (Seq::empty(), Seq::empty()),
    }
}

/// The pairs of the entries from position `i` on, or the fault of the
/// first bad entry.
pub open spec fn extract_entries_from(entries: Seq<ConfigValue>, i: int) -> Result<
    Seq<(Seq<char>, Seq<char>)>,
    ConfigError,
>
    decreases entries.len() - i,
{
    if i < 0 || i >= entries.len() {
        Ok(Seq::empty())
    } else {
        match entry_fault(entries[i], i) {
            Some(err) => Err(err),
            None => match extract_entries_from(entries, i + 1) {
                Ok(rest) => Ok(seq![entry_pair(entries[i])] + rest),
                Err(err) => Err(err),
            },
        }
    }
}

/// What loading a configuration value yields: the registry's pairs, or the
/// first fault found.
pub open spec fn extract_config_spec(v: ConfigValue) -> Result<
    Seq<(Seq<char>, Seq<char>)>,
    ConfigError,
> {
    match v {
        ConfigValue::List(entries) => extract_entries_from(entries@, 0),
        _ => Err(ConfigError::NotAnArray),
    }
}

/// The pairs a vector of owned strings stands for.
pub open spec fn pairs_view(s: Seq<(String, String)>) -> Seq<(Seq<char>, Seq<char>)> {
    Seq::new(s.len(), |k: int| (s[k].0@, s[k].1@))
}

/// A prefix of pairs already read, joined with the outcome of the rest.
spec fn with_prefix(
    p: Seq<(Seq<char>, Seq<char>)>,
    r: Result<Seq<(Seq<char>, Seq<char>)>, ConfigError>,
) -> Result<Seq<(Seq<char>, Seq<char>)>, ConfigError> {
    match r {
        Ok(rest) => Ok(p + rest),
        Err(e) => Err(e),
    }
}

/// Reads the registry's pairs out of a parsed configuration value,
/// refusing the first entry that is not an array of exactly two texts.
pub fn extract_config(v: &ConfigValue) -> (r: Result<Vec<(String, String)>, ConfigError>)
    ensures
        r is Ok <==> extract_config_spec(*v) is Ok,
        r matches Ok(pairs) ==> pairs_view(pairs@) == extract_config_spec(*v)->Ok_0,
        r matches Err(e) ==> extract_config_spec(*v) == Err::<Seq<(Seq<char>, Seq<char>)>,
            ConfigError,
        >(e) && e.index_fits(),
{
    match v {
        ConfigValue::List(entries) => {
            let n = entries.len();
            let mut out: Vec<(String, String)> = Vec::new();
            let mut i: usize = 0;
            while i < n
                invariant
                    i <= n,
                    n == entries@.len(),
                    extract_config_spec(*v) == extract_entries_from(entries@, 0),
                    out@.len() == i,
                    forall|k: int| 0 <= k < i ==> entry_fault(entries@[k], k) is None,
                    with_prefix(pairs_view(out@), extract_entries_from(entries@, i as int))
                        == extract_entries_from(entries@, 0),
                decreases n - i,
            {
                let ghost es = entries@;
                let ghost prefix = pairs_view(out@);
                match &entries[i] {
                    ConfigValue::List(items) => {
                        if items.len() != 2 {
                            let err = ConfigError::EntryWrongArity { index: i };
                            proof {
                                assert(entry_fault(es[i as int], i as int) == Some(err));
                                assert(extract_entries_from(es, i as int) == Err::<
                                    Seq<(Seq<char>, Seq<char>)>,
                                    ConfigError,
                                >(err));
                                assert(extract_config_spec(*v) == extract_entries_from(es, 0));
                            }
                            return Err(err);
                        }
                        let first = match &items[0] {
                            ConfigValue::Text(s) => s.clone(),
                            _ => {
                                let err = ConfigError::EntryFirstNotText { index: i };
                                proof {
                                    assert(entry_fault(es[i as int], i as int) == Some(err));
                                    assert(extract_entries_from(es, i as int) == Err::<
                                        Seq<(Seq<char>, Seq<char>)>,
                                        ConfigError,
                                    >(err));
                                    assert(extract_config_spec(*v) == extract_entries_from(
                                        es,
                                        0,
                                    ));
                                }
                                return Err(err);
                            },
                        };
                        let second = match &items[1] {
                            ConfigValue::Text(s) => s.clone(),
                            _ => {
                                let err = ConfigError::EntrySecondNotText { index: i };
                                proof {
                                    assert(entry_fault(es[i as int], i as int) == Some(err));
                                    assert(extract_entries_from(es, i as int) == Err::<
                                        Seq<(Seq<char>, Seq<char>)>,
                                        ConfigError,
                                    >(err));
                                    assert(extract_config_spec(*v) == extract_entries_from(
                                        es,
                                        0,
                                    ));
                                }
                                return Err(err);
                            },
                        };
                        out.push((first, second));
                        proof {
                            assert(entry_fault(es[i as int], i as int) is None);
                            assert(entry_pair(es[i as int]) == (first@, second@));
                            let rest = extract_entries_from(es, i as int + 1);
                            if rest is Ok {
                                assert(extract_entries_from(es, i as int) == Ok::<
                                    Seq<(Seq<char>, Seq<char>)>,
                                    ConfigError,
                                >(seq![entry_pair(es[i as int])] + rest->Ok_0));
                                assert(prefix + (seq![entry_pair(es[i as int])] + rest->Ok_0)
                                    =~= pairs_view(out@) + rest->Ok_0);
                            } else {
                                assert(extract_entries_from(es, i as int) == rest);
                            }
                            assert(pairs_view(out@) =~= prefix.push((first@, second@)));
                        }
                    },
                    _ => {
                        let err = ConfigError::EntryNotAnArray { index: i };
                        proof {
                            assert(entry_fault(es[i as int], i as int) == Some(err));
                            assert(extract_entries_from(es, i as int) == Err::<
                                Seq<(Seq<char>, Seq<char>)>,
                                ConfigError,
                            >(err));
                            assert(extract_config_spec(*v) == extract_entries_from(es, 0));
                        }
                        return Err(err);
                    },
                }
                i += 1;
            }
            proof {
                assert(extract_entries_from(entries@, n as int) == Ok::<
                    Seq<(Seq<char>, Seq<char>)>,
                    ConfigError,
                >(Seq::empty()));
                assert(pairs_view(out@) + Seq::empty() =~= pairs_view(out@));
            }
            Ok(out)
        },
        _ => Err(ConfigError::NotAnArray),
    }
}

/// The message a refused configuration is reported with.
pub open spec fn config_error_message_spec(e: ConfigError) -> Seq<char> {
    match e {
        ConfigError::NotAnArray => "Server config file doesn't contain array!"@,
        ConfigError::EntryNotAnArray { index } => "Entry "@ + dec_str((index + 1) as nat)
            + " of server config file isn't an array!"@,
        ConfigError::EntryWrongArity { index } => "Entry "@ + dec_str((index + 1) as nat)
            + " of server config file doesn't contain two values!"@,
        ConfigError::EntryFirstNotText { index } => "First value of entry "@ + dec_str(
            (index + 1) as nat,
        ) + " of server config file isn't a string!"@,
        ConfigError::EntrySecondNotText { index } => "Second value of entry "@ + dec_str(
            (index + 1) as nat,
        ) + " of server config file isn't a string!"@,
    }
}

/// Writes the message for a refused configuration.
pub fn config_error_message(e: &ConfigError) -> (r: String)
    requires
        e.index_fits(),
    ensures
        r@ == config_error_message_spec(*e),
{
    match e {
        ConfigError::NotAnArray => "Server config file doesn't contain array!".to_owned(),
        ConfigError::EntryNotAnArray { index } => {
            let mut m = "Entry ".to_owned();
            let num = u64_to_string(*index as u64 + 1);
            m.append(num.as_str());
            m.append(" of server config file isn't an array!");
            m
        },
        ConfigError::EntryWrongArity { index } => {
            let mut m = "Entry ".to_owned();
            let num = u64_to_string(*index as u64 + 1);
            m.append(num.as_str());
            m.append(" of server config file doesn't contain two values!");
            m
        },
        ConfigError::EntryFirstNotText { index } => {
            let mut m = "First value of entry ".to_owned();
            let num = u64_to_string(*index as u64 + 1);
            m.append(num.as_str());
            m.append(" of server config file isn't a string!");
            m
        },
        ConfigError::EntrySecondNotText { index } => {
            let mut m = "Second value of entry ".to_owned();
            let num = u64_to_string(*index as u64 + 1);
            m.append(num.as_str());
            m.append(" of server config file isn't a string!");
            m
        },
    }
}

} // verus!
