//! The Office editing tool: where it keeps its temporary files, which file a
//! Dropbox path names and what kind of document it is, and the mimetype it
//! uploads it with. Paths follow the Unix rules of `std::path`.

use vstd::prelude::*;
use crate::json::{Json, JsonV, entries_view, json_get_str, object_of, push_entry};
use crate::text::{append_str, chars_of, string_from_chars, sub_chars};

verus! {

/// The part of the workspace security policy that the Office tool reads.
#[derive(Debug, Clone)]
pub struct SecurityPolicy {
    /// The workspace directory.
    pub workspace_dir: String,
}

/// Office file editing tool (Word, Excel) with Composio integration.
#[derive(Debug)]
pub struct OfficeEditTool {
    security: SecurityPolicy,
    composio_api_key: String,
}

/// `base.join(rel)` for a relative `rel`: `rel` alone when `base` is empty,
/// else `base`, a separator unless `base` ends with one, and `rel`.
pub open spec fn path_join(base: Seq<char>, rel: Seq<char>) -> Seq<char> {
    if rel.len() > 0 && rel[0] == '/' {
        rel
    } else if base.len() == 0 {
        rel
    } else if base.last() == '/' {
        base + rel
    } else {
        base + seq!['/'] + rel
    }
}

/// The path without its trailing separators and trailing `/.` components,
/// which `std::path` does not count as components.
pub open spec fn strip_tail(p: Seq<char>) -> Seq<char>
    decreases p.len(),
{
    if p.len() > 0 && p.last() == '/' {
        strip_tail(p.drop_last())
    } else if p.len() >= 2 && p.last() == '.' && p[p.len() - 2] == '/' {
        strip_tail(p.drop_last())
    } else {
        p
    }
}

/// Where the last component of a path starts: after its last separator.
pub open spec fn segment_start(p: Seq<char>) -> int
    decreases p.len(),
{
    if p.len() == 0 {
        0
    } else if p.last() == '/' {
        p.len() as int
    } else {
        segment_start(p.drop_last())
    }
}

/// `Path::file_name`: the last component when it is a normal one (not the
/// root, `.` or `..`).
pub open spec fn spec_file_name(p: Seq<char>) -> Option<Seq<char>> {
    let q = strip_tail(p);
    let s = q.subrange(segment_start(q), q.len() as int);
    if q == seq!['.'] || s.len() == 0 || s == seq!['.', '.'] {
        None
    } else {
        Some(s)
    }
}

/// Index of the last `.` in a name, or -1.
pub open spec fn last_dot(s: Seq<char>) -> int
    decreases s.len(),
{
    if s.len() == 0 {
        -1
    } else if s.last() == '.' {
        s.len() - 1
    } else {
        last_dot(s.drop_last())
    }
}

/// `Path::extension` of a file name: what follows its last `.`, when something
/// precedes that dot.
pub open spec fn spec_extension(name: Seq<char>) -> Option<Seq<char>> {
    let d = last_dot(name);
    if d <= 0 || name == seq!['.', '.'] {
        None
    } else {
        Some(name.subrange(d + 1, name.len() as int))
    }
}

/// The mimetype of an extension.
pub open spec fn mimetype_of(ext: Option<Seq<char>>) -> Seq<char> {
    match ext {
        Some(e) => if e == "xlsx"@ {
            "application/vnd.openxmlformats-officedocument.spreadsheetml.sheet"@
        } else if e == "xls"@ {
            "application/vnd.ms-excel"@
        } else if e == "docx"@ {
            "application/vnd.openxmlformats-officedocument.wordprocessingml.document"@
        } else if e == "doc"@ {
            "application/msword"@
        } else {
            "application/octet-stream"@
        },
        None => "application/octet-stream"@,
    }
}

/// The extension of a path's file name.
pub open spec fn path_extension(p: Seq<char>) -> Option<Seq<char>> {
    match spec_file_name(p) {
        Some(n) => spec_extension(n),
        None => None,
    }
}

/// The end of the path once its tail is stripped.
fn strip_tail_len(c: &[char]) -> (n: usize)
    ensures
        n <= c@.len(),
        c@.subrange(0, n as int) == strip_tail(c@),
{
    let mut n = c.len();
    assert(c@.subrange(0, n as int) =~= c@);
    while n > 0 && (c[n - 1] == '/' || (n >= 2 && c[n - 1] == '.' && c[n - 2] == '/'))
        invariant
            n <= c@.len(),
            strip_tail(c@.subrange(0, n as int)) == strip_tail(c@),
        decreases n,
    {
        assert(c@.subrange(0, n as int).drop_last() =~= c@.subrange(0, n - 1));
        n = n - 1;
    }
    n
}

/// Where the last component of `c[..n]` starts.
fn segment_start_of(c: &[char], n: usize) -> (r: usize)
    requires
        n <= c@.len(),
    ensures
        r <= n,
        r == segment_start(c@.subrange(0, n as int)),
{
    let mut i = n;
    while i > 0 && c[i - 1] != '/'
        invariant
            i <= n <= c@.len(),
            segment_start(c@.subrange(0, i as int)) == segment_start(c@.subrange(0, n as int)),
        decreases i,
    {
        assert(c@.subrange(0, i as int).drop_last() =~= c@.subrange(0, i - 1));
        i = i - 1;
    }
    i
}

/// `Path::file_name` of a path.
pub fn file_name(path: &str) -> (r: Option<String>)
    ensures
        match spec_file_name(path@) {
            Some(n) => r matches Some(x) && x@ == n,
            None => r is None,
        },
{
    let c = chars_of(path);
    let n = strip_tail_len(c.as_slice());
    let ghost q = c@.subrange(0, n as int);
    let st = segment_start_of(c.as_slice(), n);
    let seg = sub_chars(c.as_slice(), st, n);
    proof {
        assert(seg@ =~= q.subrange(segment_start(q), q.len() as int));
    }
    let is_dot = n == 1 && c[0] == '.';
    proof {
        if is_dot {
            assert(q =~= seq!['.']);
        }
        if q == seq!['.'] {
            assert(q[0] == c@[0]);
        }
    }
    let is_dotdot = seg.len() == 2 && seg[0] == '.' && seg[1] == '.';
    proof {
        if is_dotdot {
            assert(seg@ =~= seq!['.', '.']);
        }
        if seg@ == seq!['.', '.'] {
            assert(seg@[0] == '.' && seg@[1] == '.');
        }
    }
    if is_dot || seg.len() == 0 || is_dotdot {
        None
    } else {
        Some(string_from_chars(seg.as_slice()))
    }
}

/// `Path::extension` of a file name.
pub fn extension(name: &str) -> (r: Option<String>)
    ensures
        match spec_extension(name@) {
            Some(e) => r matches Some(x) && x@ == e,
            None => r is None,
        },
{
    let c = chars_of(name);
    let mut i = c.len();
    assert(c@.subrange(0, i as int) =~= c@);
    while i > 0 && c[i - 1] != '.'
        invariant
            i <= c@.len(),
            last_dot(c@.subrange(0, i as int)) == last_dot(c@),
        decreases i,
    {
        assert(c@.subrange(0, i as int).drop_last() =~= c@.subrange(0, i - 1));
        i = i - 1;
    }
    proof {
        let t = c@.subrange(0, i as int);
        if i > 0 {
            assert(t.last() == '.');
        }
        assert(last_dot(c@) == i - 1);
    }
    let is_dotdot = c.len() == 2 && c[0] == '.' && c[1] == '.';
    proof {
        if is_dotdot {
            assert(c@ =~= seq!['.', '.']);
        }
        if c@ == seq!['.', '.'] {
            assert(c@[0] == '.' && c@[1] == '.');
        }
    }
    if i <= 1 || is_dotdot {
        None
    } else {
        let e = sub_chars(c.as_slice(), i, c.len());
        Some(string_from_chars(e.as_slice()))
    }
}

/// The MIME type of a path, by the extension of its file name.
pub fn mimetype_of_path(path: &str) -> (r: &'static str)
    ensures
        r@ == mimetype_of(path_extension(path@)),
{
    let ext = match file_name(path) {
        Some(n) => extension(n.as_str()),
        None => None,
    };
    match ext {
        Some(e) => {
            if crate::text::str_eq(e.as_str(), "xlsx") {
                "application/vnd.openxmlformats-officedocument.spreadsheetml.sheet"
            } else if crate::text::str_eq(e.as_str(), "xls") {
                "application/vnd.ms-excel"
            } else if crate::text::str_eq(e.as_str(), "docx") {
                "application/vnd.openxmlformats-officedocument.wordprocessingml.document"
            } else if crate::text::str_eq(e.as_str(), "doc") {
                "application/msword"
            } else {
                "application/octet-stream"
            }
        },
        None => "application/octet-stream",
    }
}

/// `base.join(rel)` for a relative or absolute `rel`.
pub fn join_path(base: &str, rel: &str) -> (r: String)
    ensures
        r@ == path_join(base@, rel@),
{
    let b = chars_of(base);
    let rc = chars_of(rel);
    if rc.len() > 0 && rc[0] == '/' {
        return rel.to_owned();
    }
    if b.len() == 0 {
        return rel.to_owned();
    }
    let mut v: Vec<char> = Vec::new();
    append_str(&mut v, base);
    if b[b.len() - 1] != '/' {
        v.push('/');
    }
    append_str(&mut v, rel);
    proof {
        if b@.last() == '/' {
            assert(v@ =~= base@ + rel@);
        } else {
            assert(v@ =~= base@ + seq!['/'] + rel@);
        }
    }
    string_from_chars(v.as_slice())
}

impl OfficeEditTool {
    /// The workspace directory the tool was made with.
    pub closed spec fn workspace(&self) -> Seq<char> {
        self.security.workspace_dir@
    }

    /// The Composio API key the tool was made with.
    pub closed spec fn api_key(&self) -> Seq<char> {
        self.composio_api_key@
    }

    /// A tool over the workspace of `security`, staging with the API key.
    pub fn new(security: SecurityPolicy, composio_api_key: String) -> (r: Self)
        ensures
            r.workspace() == security.workspace_dir@,
            r.api_key() == composio_api_key@,
    {
        OfficeEditTool { security, composio_api_key }
    }

    /// The API key that staging requests carry.
    pub fn composio_api_key(&self) -> (r: &str)
        ensures
            r@ == self.api_key(),
    {
        self.composio_api_key.as_str()
    }

    /// The tool's name.
    pub fn name(&self) -> (r: &'static str)
        ensures
            r@ == "office_edit"@,
    {
        "office_edit"
    }

    /// The directory for temporary Office files: `temp` in the workspace.
    pub fn temp_dir(&self) -> (r: String)
        ensures
            r@ == path_join(self.workspace(), "temp"@),
    {
        join_path(self.security.workspace_dir.as_str(), "temp")
    }

    /// MIME type of a file from its extension.
    pub fn detect_mimetype(&self, path: &str) -> (r: &'static str)
        ensures
            r@ == mimetype_of(path_extension(path@)),
    {
        mimetype_of_path(path)
    }
}

/// The kind of Office document an edit works on.
#[derive(Debug, Clone, Copy, PartialEq, Eq, Structural)]
pub enum OfficeKind {
    Excel,
    Word,
}

/// The file an edit works on: its name and kind.
pub open spec fn spec_edit_target(dropbox_path: Seq<char>) -> Result<(Seq<char>, OfficeKind), Seq<char>> {
    match spec_file_name(dropbox_path) {
        None => Err("Invalid dropbox_path"@),
        Some(n) => match spec_extension(n) {
            None => Err("File must have .xlsx or .docx extension"@),
            Some(e) => if e == "xlsx"@ {
                Ok((n, OfficeKind::Excel))
            } else if e == "docx"@ {
                Ok((n, OfficeKind::Word))
            } else {
                Err("Unsupported file type: "@ + e)
            },
        },
    }
}

/// The arguments an edit needs: the Dropbox path and the operation.
pub fn edit_arguments(args: &Json) -> (r: Result<(String, String), String>)
    ensures
        match json_get_str(args.jv(), "dropbox_path"@) {
            None => r matches Err(e) && e@ == "Missing 'dropbox_path'"@,
            Some(p) => match json_get_str(args.jv(), "operation"@) {
                None => r matches Err(e) && e@ == "Missing 'operation'"@,
                Some(o) => r matches Ok((x, y)) && x@ == p && y@ == o,
            },
        },
{
    let path = match args.get_str("dropbox_path") {
        Some(p) => p,
        None => return Err("Missing 'dropbox_path'".to_owned()),
    };
    let op = match args.get_str("operation") {
        Some(o) => o,
        None => return Err("Missing 'operation'".to_owned()),
    };
    Ok((path.to_owned(), op.to_owned()))
}

/// The file an edit of `dropbox_path` works on, and its kind.
pub fn edit_target(dropbox_path: &str) -> (r: Result<(String, OfficeKind), String>)
    ensures
        match spec_edit_target(dropbox_path@) {
            Ok((n, k)) => r matches Ok((x, y)) && x@ == n && y == k,
            Err(e) => r matches Err(x) && x@ == e,
        },
{
    let name = match file_name(dropbox_path) {
        Some(n) => n,
        None => return Err("Invalid dropbox_path".to_owned()),
    };
    let ext = match extension(name.as_str()) {
        Some(e) => e,
        None => return Err("File must have .xlsx or .docx extension".to_owned()),
    };
    if crate::text::str_eq(ext.as_str(), "xlsx") {
        Ok((name, OfficeKind::Excel))
    } else if crate::text::str_eq(ext.as_str(), "docx") {
        Ok((name, OfficeKind::Word))
    } else {
        let mut v: Vec<char> = Vec::new();
        append_str(&mut v, "Unsupported file type: ");
        append_str(&mut v, ext.as_str());
        Err(string_from_chars(v.as_slice()))
    }
}

/// What an edit answers once the file is staged.
pub fn edit_success_output(dropbox_path: &str, s3key: &str) -> (r: String)
    ensures
        r@ == "File "@ + dropbox_path@ + " edited successfully. S3 key: "@ + s3key@
            + ". Use composio_nl tool to upload this file to Dropbox."@,
{
    let mut v: Vec<char> = Vec::new();
    append_str(&mut v, "File ");
    append_str(&mut v, dropbox_path);
    append_str(&mut v, " edited successfully. S3 key: ");
    append_str(&mut v, s3key);
    append_str(&mut v, ". Use composio_nl tool to upload this file to Dropbox.");
    string_from_chars(v.as_slice())
}


/// What the Office editing tool tells the agent it does.
pub const OFFICE_EDIT_DESCRIPTION: &'static str = "Edit Office files (Word .docx, Excel .xlsx) and upload to Dropbox via Composio. Supports operations: add_row, update_cell (Excel), add_paragraph (Word). Requires --features office-edit to be enabled.";

/// The documentation of the `dropbox_path` parameter.
pub const DROPBOX_PATH_DOC: &'static str = "Path to the file in Dropbox (e.g., '/vendas.xlsx')";

/// The documentation of the `operation` parameter.
pub const OPERATION_DOC: &'static str = "Operation to perform on the file";

/// The documentation of the `data` parameter.
pub const DATA_DOC: &'static str = "Operation-specific data. For add_row: {values: [...]}, for update_cell: {row: 0, col: 0, value: '...'}, for add_paragraph: {text: '...'}";

/// The operations an edit names.
pub open spec fn spec_operations() -> JsonV {
    JsonV::Array(seq![JsonV::Str("add_row"@), JsonV::Str("update_cell"@), JsonV::Str("add_paragraph"@), JsonV::Str("replace_text"@)])
}

/// The parameters of the Office editing tool: a required `dropbox_path` and
/// `operation` (one of four), and an optional `data` object.
pub open spec fn spec_office_parameters_schema() -> JsonV {
    JsonV::Object(
        seq![
            ("type"@, JsonV::Str("object"@)),
            ("required"@, JsonV::Array(seq![JsonV::Str("dropbox_path"@), JsonV::Str("operation"@)])),
            ("properties"@, JsonV::Object(seq![
                ("dropbox_path"@, crate::json::spec_property("string"@, DROPBOX_PATH_DOC@)),
                ("operation"@, JsonV::Object(crate::json::spec_property("string"@, OPERATION_DOC@)->Object_0.push(("enum"@, spec_operations())))),
                ("data"@, crate::json::spec_property("object"@, DATA_DOC@)),
            ])),
        ],
    )
}

/// The parameters schema of the Office editing tool.
pub fn office_parameters_schema() -> (r: Json)
    ensures
        r.jv() == spec_office_parameters_schema(),
{
    let ops = Json::Array(
        vec![Json::string("add_row"), Json::string("update_cell"), Json::string("add_paragraph"), Json::string("replace_text")],
    );
    assert(ops.jv()->Array_0 =~= spec_operations()->Array_0);
    let required = Json::Array(vec![Json::string("dropbox_path"), Json::string("operation")]);
    assert(required.jv()->Array_0 =~= seq![JsonV::Str("dropbox_path"@), JsonV::Str("operation"@)]);
    let mut props: Vec<(String, Json)> = Vec::new();
    push_entry(&mut props, "dropbox_path", crate::json::property("string", DROPBOX_PATH_DOC));
    push_entry(&mut props, "operation", crate::json::with_entry(crate::json::property("string", OPERATION_DOC), "enum", ops));
    push_entry(&mut props, "data", crate::json::property("object", DATA_DOC));
    let ghost pv = spec_office_parameters_schema()->Object_0[2].1;
    assert(entries_view(props@) =~= pv->Object_0);
    let mut es: Vec<(String, Json)> = Vec::new();
    push_entry(&mut es, "type", Json::string("object"));
    push_entry(&mut es, "required", required);
    push_entry(&mut es, "properties", object_of(props));
    assert(entries_view(es@) =~= spec_office_parameters_schema()->Object_0);
    object_of(es)
}

} // verus!
