//! Reading the package name of a project from its `Cargo.toml`, and the
//! paths that the tool derives from it.
//!
//! Paths are strings joined as `Path::join` joins them on Unix.
use vstd::prelude::*;
use vstd::string::StringExecFns;

verus! {

#[verifier::external_type_specification]
#[verifier::external_body]
pub struct ExTomlError(toml::de::Error);

/// The string entry `key` of the table `table` of the TOML document
/// `document`: `None` where the document does not parse, `Some(None)` where
/// the table, the entry, or a string value there is missing.
pub uninterp spec fn toml_string_entry(document: Seq<char>, table: Seq<char>, key: Seq<char>) -> Option<
    Option<Seq<char>>,
>;

/// Parses `document` with `toml::from_str` into a `toml::Value`, then reads
/// `value.get(table)`, its `get(key)` and that value's `as_str()`.
/// The contract names the outcome `toml_string_entry` of the three
/// arguments; what the toml parser accepts is left to it.
#[verifier::external_body]
fn read_toml_string_entry(document: &str, table: &str, key: &str) -> (r: Result<
    Option<String>,
    toml::de::Error,
>)
    ensures
        match r {
            Ok(Some(s)) => toml_string_entry(document@, table@, key@) == Some(Some(s@)),
            Ok(None) => toml_string_entry(document@, table@, key@) == Some(None::<Seq<char>>),
            Err(_) => toml_string_entry(document@, table@, key@) is None,
        },
{
    match toml::from_str::<toml::Value>(document) {
        Ok(value) => Ok(
            value.get(table).and_then(|t| t.get(key)).and_then(|v| v.as_str()).map(
                |s| s.to_string(),
            ),
        ),
        Err(e) => Err(e),
    }
}

/// Why no package name could be read from a manifest.
#[derive(Clone, Copy, Debug, PartialEq, Eq, Structural)]
pub enum ManifestError {
    /// The manifest is not a TOML document.
    Parse,
    /// The manifest has no string `name` in its `[package]` table.
    MissingPackageName,
}

/// The outcome of reading the package name, given what the TOML lookup of
/// `package.name` gave.
pub open spec fn package_name_outcome(lookup: Option<Option<Seq<char>>>) -> Result<
    Seq<char>,
    ManifestError,
> {
    match lookup {
        None => Err(ManifestError::Parse),
        Some(None) => Err(ManifestError::MissingPackageName),
        Some(Some(name)) => Ok(name),
    }
}

/// The name read is the string that the lookup found, unchanged: a package
/// name with hyphens keeps them. Only a failed parse or a missing name is an
/// error.
pub proof fn lemma_package_name_read_unchanged(lookup: Option<Option<Seq<char>>>)
    ensures
        lookup matches Some(Some(s)) ==> package_name_outcome(lookup) == Ok::<
            Seq<char>,
            ManifestError,
        >(s),
        lookup is None ==> package_name_outcome(lookup) == Err::<Seq<char>, ManifestError>(
            ManifestError::Parse,
        ),
        lookup == Some(None::<Seq<char>>) ==> package_name_outcome(lookup) == Err::<
            Seq<char>,
            ManifestError,
        >(ManifestError::MissingPackageName),
{
}

/// The view of a result that holds a string.
pub open spec fn result_view(r: Result<String, ManifestError>) -> Result<Seq<char>, ManifestError> {
    match r {
        Ok(s) => Ok(s@),
        Err(e) => Err(e),
    }
}

/// The package name, given what the TOML lookup of `package.name` gave:
/// `None` for a document that did not parse, `Some(None)` for a missing
/// name.
pub fn package_name_from_lookup(lookup: Option<Option<String>>) -> (r: Result<String, ManifestError>)
    ensures
        result_view(r) == package_name_outcome(
            match lookup {
                None => None,
                Some(None) => Some(None),
                Some(Some(s)) => Some(Some(s@)),
            },
        ),
        match lookup {
            None => r == Err::<String, ManifestError>(ManifestError::Parse),
            Some(None) => r == Err::<String, ManifestError>(ManifestError::MissingPackageName),
            Some(Some(s)) => r is Ok && r->Ok_0@ == s@,
        },
{
    match lookup {
        None => Err(ManifestError::Parse),
        Some(None) => Err(ManifestError::MissingPackageName),
        Some(Some(name)) => Ok(name),
    }
}

/// The `[package].name` of the manifest text `cargo_toml`.
pub fn project_name_from_cargo_toml(cargo_toml: &str) -> (r: Result<String, ManifestError>)
    ensures
        result_view(r) == package_name_outcome(
            toml_string_entry(cargo_toml@, "package"@, "name"@),
        ),
        match toml_string_entry(cargo_toml@, "package"@, "name"@) {
            None => r == Err::<String, ManifestError>(ManifestError::Parse),
            Some(None) => r == Err::<String, ManifestError>(ManifestError::MissingPackageName),
            Some(Some(s)) => r is Ok && r->Ok_0@ == s,
        },
{
    let lookup = match read_toml_string_entry(cargo_toml, "package", "name") {
        Ok(entry) => Some(entry),
        Err(_) => None,
    };
    package_name_from_lookup(lookup)
}

/// `base` joined with `component` as `Path::join` does on Unix: an absolute
/// component replaces the base, and a separator is put between the two
/// unless the base is empty or already ends with one.
pub open spec fn path_join_text(base: Seq<char>, component: Seq<char>) -> Seq<char> {
    if component.len() > 0 && component[0] == '/' {
        component
    } else if base.len() == 0 || base.last() == '/' {
        base + component
    } else {
        base + seq!['/'] + component
    }
}

/// `base` joined with `component` (`Path::join` on Unix).
pub fn path_join(base: &str, component: &str) -> (r: String)
    ensures
        r@ == path_join_text(base@, component@),
{
    let b = crate::text::chars_of(base);
    let c = crate::text::chars_of(component);
    if c.len() > 0 && c[0] == '/' {
        return String::from_str(component);
    }
    let mut r = String::from_str(base);
    if b.len() > 0 && b[b.len() - 1] != '/' {
        r.append("/");
        proof {
            reveal_strlit("/");
        }
    }
    r.append(component);
    r
}

/// The name by which Rust code refers to the crate of the package
/// `package_name`: each hyphen becomes an underscore, as cargo does for the
/// library target.
pub open spec fn crate_name_text(package_name: Seq<char>) -> Seq<char> {
    package_name.map_values(|c: char| if c == '-' { '_' } else { c })
}

/// The crate name of the package `package_name`.
pub fn crate_name(package_name: &str) -> (r: String)
    ensures
        r@ == crate_name_text(package_name@),
        r@.len() == package_name@.len(),
        forall|i: int|
            0 <= i < package_name@.len() ==> #[trigger] r@[i] == if package_name@[i] == '-' {
                '_'
            } else {
                package_name@[i]
            },
{
    let v = crate::text::chars_of(package_name);
    let mut w: Vec<char> = Vec::new();
    let mut i: usize = 0;
    while i < v.len()
        invariant
            v@ == package_name@,
            i <= v.len(),
            w@ == crate_name_text(v@.take(i as int)),
        decreases v.len() - i,
    {
        let c = v[i];
        w.push(if c == '-' { '_' } else { c });
        assert(v@.take(i + 1) =~= v@.take(i as int).push(c));
        i += 1;
        assert(w@ =~= crate_name_text(v@.take(i as int)));
    }
    assert(v@.take(v@.len() as int) =~= v@);
    crate::text::string_of_chars(&w, 0, w.len())
}

/// The path of the program keypair of the package `project_name` in
/// `project_dir`: `target/deploy/<name>-keypair.json` under it.
pub open spec fn keypair_path_text(project_dir: Seq<char>, project_name: Seq<char>) -> Seq<char> {
    path_join_text(
        path_join_text(path_join_text(project_dir, "target"@), "deploy"@),
        project_name + "-keypair.json"@,
    )
}

/// Where the program keypair of the package `project_name` lies in
/// `project_dir`.
pub fn keypair_path(project_dir: &str, project_name: &str) -> (r: String)
    ensures
        r@ == keypair_path_text(project_dir@, project_name@),
{
    let target = path_join(project_dir, "target");
    let deploy = path_join(target.as_str(), "deploy");
    let mut file_name = String::from_str(project_name);
    file_name.append("-keypair.json");
    path_join(deploy.as_str(), file_name.as_str())
}

/// The keypair path of the project in `project_dir` whose manifest text is
/// `cargo_toml`.
pub fn expected_keypair_path(project_dir: &str, cargo_toml: &str) -> (r: Result<
    String,
    ManifestError,
>)
    ensures
        result_view(r) == match package_name_outcome(
            toml_string_entry(cargo_toml@, "package"@, "name"@),
        ) {
            Ok(name) => Ok(keypair_path_text(project_dir@, name)),
            Err(e) => Err(e),
        },
        match toml_string_entry(cargo_toml@, "package"@, "name"@) {
            None => r == Err::<String, ManifestError>(ManifestError::Parse),
            Some(None) => r == Err::<String, ManifestError>(ManifestError::MissingPackageName),
            Some(Some(s)) => r is Ok && r->Ok_0@ == keypair_path_text(project_dir@, s),
        },
{
    let name = project_name_from_cargo_toml(cargo_toml)?;
    Ok(keypair_path(project_dir, name.as_str()))
}

} // verus!
