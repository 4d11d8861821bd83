use vstd::prelude::*;
use crate::params::text_eq;

verus! {

/// Whether `text` is a TOML document.
pub uninterp spec fn toml_is_table(text: Seq<char>) -> bool;

/// The string that a TOML document holds under top-level `key`, if it holds one.
pub uninterp spec fn toml_string_entry(text: Seq<char>, key: Seq<char>) -> Option<Seq<char>>;

/// The length of the array that a TOML document holds under top-level `key`, if
/// it holds one.
pub uninterp spec fn toml_array_len(text: Seq<char>, key: Seq<char>) -> Option<nat>;

/// The string at index `i` of the array under top-level `key`, if it is a string.
pub uninterp spec fn toml_array_string(text: Seq<char>, key: Seq<char>, i: nat) -> Option<Seq<char>>;

/// Relies on toml's `FromStr` for `toml::Table`: whether the text parses.
#[verifier::external_body]
fn parses_as_table(text: &str) -> (r: bool)
    ensures
        r == toml_is_table(text@),
{
    text.parse::<toml::Table>().is_ok()
}

/// Relies on toml's `FromStr` for `toml::Table`, `Map::get` and `Value::as_str`:
/// the string under `key` in the parsed document.
#[verifier::external_body]
fn table_string(text: &str, key: &str) -> (r: Option<String>)
    ensures
        r matches Some(s) ==> toml_string_entry(text@, key@) == Some(s@),
        r is None <==> toml_string_entry(text@, key@) is None,
{
    match text.parse::<toml::Table>() {
        Ok(t) => t.get(key).and_then(toml::Value::as_str).map(String::from),
        Err(_) => None,
    }
}

/// Relies on toml's `FromStr` for `toml::Table`, `Map::get` and
/// `Value::as_array`: the length of the array under `key`.
#[verifier::external_body]
fn table_array_len(text: &str, key: &str) -> (r: Option<usize>)
    ensures
        r matches Some(n) ==> toml_array_len(text@, key@) == Some(n as nat),
        r is None <==> toml_array_len(text@, key@) is None,
{
    match text.parse::<toml::Table>() {
        Ok(t) => t.get(key).and_then(toml::Value::as_array).map(Vec::len),
        Err(_) => None,
    }
}

/// Relies on toml's `FromStr` for `toml::Table`, `Map::get`, `Value::as_array`
/// and `Value::as_str`: the string at index `i` of the array under `key`.
#[verifier::external_body]
fn table_array_string(text: &str, key: &str, i: usize) -> (r: Option<String>)
    ensures
        r matches Some(s) ==> toml_array_string(text@, key@, i as nat) == Some(s@),
        r is None <==> toml_array_string(text@, key@, i as nat) is None,
{
    match text.parse::<toml::Table>() {
        Ok(t) => t.get(key).and_then(toml::Value::as_array).and_then(|a| a.get(i)).and_then(toml::Value::as_str).map(String::from),
        Err(_) => None,
    }
}

/// The strings among the first `n` entries of the array under `key`, in order.
pub open spec fn array_strings(text: Seq<char>, key: Seq<char>, n: nat) -> Seq<Seq<char>>
    decreases n,
{
    if n == 0 {
        Seq::empty()
    } else {
        let prev = array_strings(text, key, (n - 1) as nat);
        match toml_array_string(text, key, (n - 1) as nat) {
            Some(s) => prev.push(s),
            None => prev,
        }
    }
}

/// The base name of the generated file when the configuration names none.
pub const DEFAULT_OUTPUT: &'static str = "sqcrab_domains";

/// Why a configuration text was refused.
#[derive(Debug)]
pub enum ConfigError {
    InvalidToml,
}

/// The project's generator configuration: the base name of the generated
/// source file, and the module paths that scanning is restricted to.
pub struct DomainBuilderConfig {
    output: Option<String>,
    includes: Option<Vec<String>>,
}

pub open spec fn views(v: Seq<String>) -> Seq<Seq<char>> {
    v.map_values(|s: String| s@)
}

impl DomainBuilderConfig {
    /// The configured output base name, if any.
    pub closed spec fn spec_output(&self) -> Option<Seq<char>> {
        match self.output {
            Some(s) => Some(s@),
            None => None,
        }
    }

    /// The configured include list, if any.
    pub closed spec fn spec_includes(&self) -> Option<Seq<Seq<char>>> {
        match self.includes {
            Some(v) => Some(views(v@)),
            None => None,
        }
    }

    /// The configuration of a project without a configuration file.
    pub fn new() -> (r: DomainBuilderConfig)
        ensures
            r.spec_output() is None,
            r.spec_includes() is None,
    {
        DomainBuilderConfig { output: None, includes: None }
    }

    /// A configuration from its two options.
    pub fn from_values(output: Option<String>, includes: Option<Vec<String>>) -> (r: DomainBuilderConfig)
        ensures
            r.spec_output() == match output {
                Some(s) => Some(s@),
                None => None::<Seq<char>>,
            },
            r.spec_includes() == match includes {
                Some(v) => Some(views(v@)),
                None => None::<Seq<Seq<char>>>,
            },
    {
        DomainBuilderConfig { output, includes }
    }

    /// Reads the configuration file's text: `output` is a string, `include` an
    /// array whose string entries are kept; anything else is ignored. Text that
    /// is no TOML document is refused.
    pub fn from_toml(text: &str) -> (r: Result<DomainBuilderConfig, ConfigError>)
        ensures
            r is Err <==> !toml_is_table(text@),
            r matches Ok(c) ==> c.spec_output() == toml_string_entry(text@, "output"@) && c.spec_includes() == match toml_array_len(
                text@,
                "include"@,
            ) {
                Some(n) => Some(array_strings(text@, "include"@, n)),
                None => None::<Seq<Seq<char>>>,
            },
    {
        if !parses_as_table(text) {
            return Err(ConfigError::InvalidToml);
        }
        let output = table_string(text, "output");
        let includes = match table_array_len(text, "include") {
            None => None,
            Some(n) => {
                let mut v: Vec<String> = Vec::new();
                let mut i: usize = 0;
                while i < n
                    invariant
                        i <= n,
                        views(v@) == array_strings(text@, "include"@, i as nat),
                    decreases n - i,
                {
                    match table_array_string(text, "include", i) {
                        Some(s) => {
                            v.push(s);
                            assert(views(v@) =~= array_strings(text@, "include"@, (i + 1) as nat));
                        },
                        None => {},
                    }
                    i += 1;
                }
                Some(v)
            },
        };
        Ok(DomainBuilderConfig { output, includes })
    }

    /// The base name of the generated file.
    pub fn get_output_name(&self) -> (r: String)
        ensures
            r@ == match self.spec_output() {
                Some(s) => s,
                None => DEFAULT_OUTPUT@,
            },
    {
        match &self.output {
            Some(s) => s.clone(),
            None => String::from_str(DEFAULT_OUTPUT),
        }
    }

    /// The name of the generated file: the base name with the `.rs` extension.
    pub fn get_output_file(&self) -> (r: String)
        ensures
            r@ == match self.spec_output() {
                Some(s) => s,
                None => DEFAULT_OUTPUT@,
            } + ".rs"@,
    {
        self.get_output_name().concat(".rs")
    }

    /// The module paths scanning is restricted to, if any.
    pub fn get_includes(&self) -> (r: Option<&Vec<String>>)
        ensures
            r matches Some(v) ==> self.spec_includes() == Some(views(v@)),
            r is None <==> self.spec_includes() is None,
    {
        match &self.includes {
            Some(v) => Some(v),
            None => None,
        }
    }

    /// Whether the source file of module path `name` (relative to the source
    /// root, without extension) is scanned: never the generated file, and,
    /// where an include list is set, only the modules it names.
    pub fn is_source_file(&self, name: &str) -> (r: bool)
        ensures
            r == (name@ != (match self.spec_output() {
                Some(s) => s,
                None => DEFAULT_OUTPUT@,
            }) && match self.spec_includes() {
                Some(v) => v.contains(name@),
                None => true,
            }),
    {
        let out = self.get_output_name();
        if text_eq(out.as_str(), name) {
            return false;
        }
        match &self.includes {
            None => true,
            Some(v) => {
                let mut i: usize = 0;
                while i < v.len()
                    invariant
                        i <= v@.len(),
                        forall|j: int| 0 <= j < i ==> v@[j]@ != name@,
                        self.spec_includes() == Some(views(v@)),
                        name@ != (match self.spec_output() {
                            Some(s) => s,
                            None => DEFAULT_OUTPUT@,
                        }),
                    decreases v@.len() - i,
                {
                    if text_eq(v[i].as_str(), name) {
                        assert(views(v@)[i as int] == name@);
                        return true;
                    }
                    i += 1;
                }
                proof {
                    if views(v@).contains(name@) {
                        let j = choose|j: int| 0 <= j < views(v@).len() && views(v@)[j] == name@;
                        assert(v@[j]@ == name@);
                    }
                }
                false
            },
        }
    }
}

} // verus!
