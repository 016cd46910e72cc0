use vstd::prelude::*;

use vstd::utf8::{decode_utf8, valid_utf8};

verus! {

/// The command that initializes a new project: scaffold a project at
/// `project_path`, swap the example contracts in, and rewrite the workspace
/// manifest from the upstream SDK to this project's SDK.  The filesystem
/// work around it hands this module plain values and takes plain values
/// back.
pub struct Cmd {
    /// The path to the project must be provided to initialize
    pub project_path: String,
    /// The name of the project
    pub name: String,
}

/// Everything that can go wrong in the computed part of initialization.
#[derive(Debug)]
pub enum InitError {
    /// An embedded example file is not valid UTF-8.
    InvalidUtf8 { filename: String },
    /// The rewritten workspace manifest does not parse as TOML.
    TomlParse,
}

pub ghost enum InitErrorView {
    InvalidUtf8 { filename: Seq<char> },
    TomlParse,
}

impl View for InitError {
    type V = InitErrorView;

    open spec fn view(&self) -> InitErrorView {
        match self {
            InitError::InvalidUtf8 { filename } => InitErrorView::InvalidUtf8 {
                filename: filename@,
            },
            InitError::TomlParse => InitErrorView::TomlParse,
        }
    }
}

/// The frontend template a new project is scaffolded with.
pub fn frontend_template() -> (r: &'static str)
    ensures
        r@ == "https://github.com/loambuild/frontend"@,
{
    "https://github.com/loambuild/frontend"
}

/// The default project name when none is given.
pub fn default_project_name() -> (r: &'static str)
    ensures
        r@ == "loam-example"@,
{
    "loam-example"
}

pub open spec fn joined(dir: Seq<char>, file: Seq<char>) -> Seq<char> {
    dir + "/"@ + file
}

pub fn join_path(dir: &String, file: &String) -> (r: String)
    ensures
        r@ == joined(dir@, file@),
{
    let mut r = dir.clone();
    r.append("/");
    r.append(file.as_str());
    r
}

/// The scaffolded default contract directory that initialization removes
/// before the example contracts are copied in.
pub fn default_contract_dir(project: &String) -> (r: String)
    ensures
        r@ == project@ + "/contracts/hello_world/"@,
{
    let mut r = project.clone();
    r.append("/contracts/hello_world/");
    r
}

/// The rename performed for each example contract after copying: its shipped
/// `Cargo.toml.remove` becomes the live `Cargo.toml`.  Returns (from, to);
/// the filesystem work stands outside this module.
pub fn rename_cargo_toml_remove(project: &String, name: &String) -> (r: (String, String))
    ensures
        r.0@ == project@ + "/contracts/"@ + name@ + "/Cargo.toml.remove"@,
        r.1@ == project@ + "/contracts/"@ + name@ + "/Cargo.toml"@,
{
    let mut base = project.clone();
    base.append("/contracts/");
    base.append(name.as_str());
    base.append("/Cargo.toml");
    let mut from = base.clone();
    from.append(".remove");
    proof {
        reveal_strlit("/Cargo.toml");
        reveal_strlit(".remove");
        reveal_strlit("/Cargo.toml.remove");
        assert(from@ =~= project@ + "/contracts/"@ + name@ + "/Cargo.toml.remove"@);
    }
    (from, base)
}

/// The first index at or after `i` holding a double quote, if any.
pub open spec fn first_quote(s: Seq<char>, i: int) -> Option<int>
    decreases s.len() - i,
{
    if i < 0 || i >= s.len() {
        None
    } else if s[i] == '"' {
        Some(i)
    } else {
        first_quote(s, i + 1)
    }
}

proof fn lemma_first_quote_bounds(s: Seq<char>, i: int)
    ensures
        first_quote(s, i) matches Some(j) ==> i <= j < s.len() && s[j] == '"',
    decreases s.len() - i,
{
    if 0 <= i < s.len() && s[i] != '"' {
        lemma_first_quote_bounds(s, i + 1);
    }
}

pub open spec fn sdk_pattern_prefix() -> Seq<char> {
    "soroban-sdk = \""@
}

pub open spec fn sdk_replacement() -> Seq<char> {
    "loam-sdk = \"0.6.12\"\nloam-subcontract-core = \"0.7.5\""@
}

/// The length of the upstream-SDK dependency line matched at the start of
/// `s`, if one starts there: the literal prefix `soroban-sdk = "`, a
/// non-empty run of non-quote characters, and the closing quote.
pub open spec fn sdk_match_len(s: Seq<char>) -> Option<int> {
    if s.len() >= 17 && s.subrange(0, 15) == sdk_pattern_prefix() && s[15] != '"' {
        match first_quote(s, 16) {
            Some(j) => Some(j + 1),
            None => None,
        }
    } else {
        None
    }
}

proof fn lemma_sdk_match_len_bounds(s: Seq<char>)
    ensures
        sdk_match_len(s) matches Some(l) ==> 17 <= l <= s.len(),
{
    lemma_first_quote_bounds(s, 16);
}

/// The workspace manifest text with every upstream-SDK dependency line
/// replaced, scanning left to right over non-overlapping matches.
pub open spec fn sdk_replaced(s: Seq<char>) -> Seq<char>
    decreases s.len(),
    via sdk_replaced_dec
{
    if s.len() == 0 {
        s
    } else {
        match sdk_match_len(s) {
            Some(l) => sdk_replacement() + sdk_replaced(s.skip(l)),
            None => seq![s[0]] + sdk_replaced(s.skip(1)),
        }
    }
}

#[via_fn]
proof fn sdk_replaced_dec(s: Seq<char>) {
    lemma_sdk_match_len_bounds(s);
}

/// Relies on regex::Regex::new and regex::Regex::replace_all: with the
/// pattern `soroban-sdk = "[^\"]+"` and a literal replacement (no capture
/// references), replace_all rewrites exactly the non-overlapping
/// leftmost-first matches, scanning each from the literal prefix through a
/// greedy non-empty run of non-quote characters to the closing quote — the
/// scan `sdk_replaced` describes.
#[verifier::external_body]
fn replace_sdk_dependency(s: &str) -> (r: String)
    ensures
        r@ == sdk_replaced(s@),
{
    regex::Regex::new(r#"soroban-sdk = "[^\"]+""#)
        .unwrap()
        .replace_all(s, "loam-sdk = \"0.6.12\"\nloam-subcontract-core = \"0.7.5\"")
        .into_owned()
}

/// Whether a string parses as a TOML document.
pub uninterp spec fn toml_well_formed(s: Seq<char>) -> bool;

/// Relies on toml_edit::DocumentMut's FromStr implementation: whether a
/// string parses as a TOML document is a function of the string alone.
#[verifier::external_body]
fn toml_is_valid(s: &str) -> (r: bool)
    ensures
        r == toml_well_formed(s@),
{
    s.parse::<toml_edit::DocumentMut>().is_ok()
}

/// Rewrite a scaffolded workspace manifest to this project's SDK: replace
/// each upstream-SDK dependency line, then validate that the result still
/// parses as TOML.  Takes the manifest text and returns the text to write
/// back; the read and the write stand outside this module.  toml_edit
/// parsing is format-preserving, so the validated text is returned as-is.
pub fn update_workspace_cargo_toml(manifest: &str) -> (r: Result<String, InitError>)
    ensures
        toml_well_formed(sdk_replaced(manifest@)) ==> (r matches Ok(out) && out@ == sdk_replaced(
            manifest@,
        )),
        !toml_well_formed(sdk_replaced(manifest@)) ==> (r matches Err(e) && e@
            == InitErrorView::TomlParse),
{
    let replaced = replace_sdk_dependency(manifest);
    if toml_is_valid(replaced.as_str()) {
        Ok(replaced)
    } else {
        Err(InitError::TomlParse)
    }
}

/// One embedded example file as handed over by the template archive: its
/// relative name and its bytes, absent when the archive cannot produce it.
pub struct EmbeddedFileEntry {
    pub name: String,
    pub data: Option<Vec<u8>>,
}

pub ghost struct EmbeddedFileEntryView {
    pub name: Seq<char>,
    pub data: Option<Seq<u8>>,
}

impl View for EmbeddedFileEntry {
    type V = EmbeddedFileEntryView;

    open spec fn view(&self) -> EmbeddedFileEntryView {
        EmbeddedFileEntryView {
            name: self.name@,
            data: match self.data {
                Some(ref d) => Some(d@),
                None => None,
            },
        }
    }
}

/// What the copying step decides for one file.  A file that already exists
/// is skipped, not overwritten; an absent embedded file is reported and
/// skipped; readable contents are written.
pub enum FileAction {
    SkippedExisting { path: String },
    MissingEmbedded { filename: String },
    WriteFile { path: String, contents: String },
}

pub ghost enum FileActionView {
    SkippedExisting { path: Seq<char> },
    MissingEmbedded { filename: Seq<char> },
    WriteFile { path: Seq<char>, contents: Seq<char> },
}

impl View for FileAction {
    type V = FileActionView;

    open spec fn view(&self) -> FileActionView {
        match self {
            FileAction::SkippedExisting { path } => FileActionView::SkippedExisting {
                path: path@,
            },
            FileAction::MissingEmbedded { filename } => FileActionView::MissingEmbedded {
                filename: filename@,
            },
            FileAction::WriteFile { path, contents } => FileActionView::WriteFile {
                path: path@,
                contents: contents@,
            },
        }
    }
}

pub open spec fn path_exists_in(existing: Seq<String>, path: Seq<char>) -> bool {
    exists|i: int| 0 <= i < existing.len() && existing[i]@ == path
}

/// The decision rule for one file, as a mathematical function.
pub open spec fn copy_file_model(
    dir: Seq<char>,
    e: EmbeddedFileEntryView,
    existing: Seq<String>,
) -> Result<FileActionView, InitErrorView> {
    let path = joined(dir, e.name);
    if path_exists_in(existing, path) {
        Ok(FileActionView::SkippedExisting { path })
    } else {
        match e.data {
            None => Ok(FileActionView::MissingEmbedded { filename: e.name }),
            Some(b) => if valid_utf8(b) {
                Ok(FileActionView::WriteFile { path, contents: decode_utf8(b) })
            } else {
                Err(InitErrorView::InvalidUtf8 { filename: e.name })
            },
        }
    }
}

/// Relies on String::from_utf8: it returns Ok exactly on valid UTF-8 input,
/// and the resulting string's characters are the UTF-8 decoding of the
/// bytes.
#[verifier::external_body]
fn utf8_string(b: &Vec<u8>) -> (r: Option<String>)
    ensures
        r is Some <==> valid_utf8(b@),
        r matches Some(s) ==> s@ == decode_utf8(b@),
{
    String::from_utf8(b.clone()).ok()
}

#[verifier::loop_isolation(false)]
fn path_exists(existing: &Vec<String>, path: &String) -> (r: bool)
    ensures
        r == path_exists_in(existing@, path@),
{
    let mut k: usize = 0;
    let n = existing.len();
    while k < n
        invariant
            k <= n,
            forall|i: int| 0 <= i < k ==> existing@[i]@ != path@,
        decreases n - k,
    {
        if existing[k] == *path {
            return true;
        }
        k += 1;
    }
    false
}

/// Decide what to do with one embedded example file aimed at
/// `example_path`: skip it if the target exists, report it if the archive
/// has no contents for it, otherwise hand back the UTF-8 text to write.
/// `existing` lists the target paths that are already present as files.
pub fn copy_file(
    example_path: &String,
    filename: &String,
    embedded_file: Option<&Vec<u8>>,
    existing: &Vec<String>,
) -> (r: Result<FileAction, InitError>)
    ensures
        ({
            let e = EmbeddedFileEntryView {
                name: filename@,
                data: match embedded_file {
                    Some(b) => Some(b@),
                    None => None,
                },
            };
            match r {
                Ok(a) => copy_file_model(example_path@, e, existing@) == Ok::<
                    FileActionView,
                    InitErrorView,
                >(a@),
                Err(er) => copy_file_model(example_path@, e, existing@) == Err::<
                    FileActionView,
                    InitErrorView,
                >(er@),
            }
        }),
{
    let to = join_path(example_path, filename);
    if path_exists(existing, &to) {
        return Ok(FileAction::SkippedExisting { path: to });
    }
    let data = match embedded_file {
        Some(d) => d,
        None => {
            return Ok(FileAction::MissingEmbedded { filename: filename.clone() });
        },
    };
    match utf8_string(data) {
        Some(contents) => Ok(FileAction::WriteFile { path: to, contents }),
        None => Err(InitError::InvalidUtf8 { filename: filename.clone() }),
    }
}

/// The directory one example contract's files are copied under.
pub fn example_contract_dir(to: &String, example: &String) -> (r: String)
    ensures
        r@ == to@ + "/contracts/"@ + example@,
{
    let mut r = to.clone();
    r.append("/contracts/");
    r.append(example.as_str());
    r
}

/// Plan the copying of both example contracts into a scaffolded project:
/// every file of the core example under `<to>/contracts/core`, then every
/// file of the status-message example under
/// `<to>/contracts/status_message`, each decided by `copy_file_model`.
/// Stops at the first undecodable file, like the copy it plans for.
#[verifier::loop_isolation(false)]
pub fn copy_example_contracts(
    to: &String,
    core_files: &Vec<EmbeddedFileEntry>,
    status_message_files: &Vec<EmbeddedFileEntry>,
    existing: &Vec<String>,
) -> (r: Result<Vec<FileAction>, InitError>)
    ensures
        r matches Ok(v) ==> {
            &&& v@.len() == core_files@.len() + status_message_files@.len()
            &&& forall|i: int|
                0 <= i < core_files@.len() ==> copy_file_model(
                    to@ + "/contracts/core"@,
                    core_files@[i]@,
                    existing@,
                ) == Ok::<FileActionView, InitErrorView>(v@[i]@)
            &&& forall|i: int|
                0 <= i < status_message_files@.len() ==> copy_file_model(
                    to@ + "/contracts/status_message"@,
                    status_message_files@[i]@,
                    existing@,
                ) == Ok::<FileActionView, InitErrorView>(v@[core_files@.len() + i]@)
        },
        r matches Err(e) ==> ((exists|i: int|
            0 <= i < core_files@.len() && copy_file_model(
                to@ + "/contracts/core"@,
                core_files@[i]@,
                existing@,
            ) == Err::<FileActionView, InitErrorView>(e@)) || (exists|i: int|
            0 <= i < status_message_files@.len() && copy_file_model(
                to@ + "/contracts/status_message"@,
                status_message_files@[i]@,
                existing@,
            ) == Err::<FileActionView, InitErrorView>(e@))),
{
    let core_dir = example_contract_dir(to, &String::from_str("core"));
    let sm_dir = example_contract_dir(to, &String::from_str("status_message"));
    proof {
        reveal_strlit("/contracts/");
        reveal_strlit("core");
        reveal_strlit("status_message");
        reveal_strlit("/contracts/core");
        reveal_strlit("/contracts/status_message");
        assert(core_dir@ =~= to@ + "/contracts/core"@);
        assert(sm_dir@ =~= to@ + "/contracts/status_message"@);
    }
    let mut out: Vec<FileAction> = Vec::new();
    let mut k: usize = 0;
    let nc = core_files.len();
    while k < nc
        invariant
            k <= nc,
            core_dir@ == to@ + "/contracts/core"@,
            out@.len() == k,
            forall|i: int|
                0 <= i < k ==> copy_file_model(to@ + "/contracts/core"@, core_files@[i]@, existing@)
                    == Ok::<FileActionView, InitErrorView>(out@[i]@),
        decreases nc - k,
    {
        let entry = &core_files[k];
        let action = match &entry.data {
            Some(d) => copy_file(&core_dir, &entry.name, Some(d), existing),
            None => copy_file(&core_dir, &entry.name, None, existing),
        };
        match action {
            Ok(a) => out.push(a),
            Err(e) => {
                return Err(e);
            },
        }
        k += 1;
    }
    let mut k2: usize = 0;
    let ns = status_message_files.len();
    while k2 < ns
        invariant
            k2 <= ns,
            sm_dir@ == to@ + "/contracts/status_message"@,
            out@.len() == nc + k2,
            forall|i: int|
                0 <= i < nc ==> copy_file_model(to@ + "/contracts/core"@, core_files@[i]@, existing@)
                    == Ok::<FileActionView, InitErrorView>(out@[i]@),
            forall|i: int|
                0 <= i < k2 ==> copy_file_model(
                    to@ + "/contracts/status_message"@,
                    status_message_files@[i]@,
                    existing@,
                ) == Ok::<FileActionView, InitErrorView>(out@[nc + i]@),
        decreases ns - k2,
    {
        let entry = &status_message_files[k2];
        let action = match &entry.data {
            Some(d) => copy_file(&sm_dir, &entry.name, Some(d), existing),
            None => copy_file(&sm_dir, &entry.name, None, existing),
        };
        match action {
            Ok(a) => out.push(a),
            Err(e) => {
                return Err(e);
            },
        }
        k2 += 1;
    }
    Ok(out)
}

} // verus!
