//! Python code generation for the Composio workbench: the prompt sent to
//! the language model, and the cleanup and validation of the code it returns.
//! The model call itself is the caller's part.

use vstd::prelude::*;
use crate::text::{
    append_str, chars_of, contains_chars, seq_contains, seq_ends_with, seq_starts_with, spec_trim,
    starts_with_chars, ends_with_chars, string_from_chars, sub_chars, trim_chars,
};

verus! {

/// Default timeout for code generation calls, in seconds.
pub const CODE_GENERATION_TIMEOUT_SECS: u64 = 30;

/// The prompt text before the query.
pub open spec fn prompt_head() -> Seq<char> {
    PROMPT_HEAD@
}

/// The prompt text after the query.
pub open spec fn prompt_tail() -> Seq<char> {
    PROMPT_TAIL@
}

/// Prompt template text before the query.
pub const PROMPT_HEAD: &'static str = r#"Generate Python code for Composio Workbench to accomplish the following task:

"#;

/// Prompt template text after the query.
pub const PROMPT_TAIL: &'static str = r#"

Available helpers in the Workbench environment:
- run_composio_tool(tool_name: str, params: dict) -> dict
  Execute a Composio tool and return the result
  
- read_file(path: str) -> str
  Read a file from the workspace
  
- write_file(path: str, content: str) -> None
  Write content to a file in the workspace
  
- search_output(pattern: str) -> list
  Search previous output for a pattern

Guidelines:
1. Return ONLY the Python code, no explanations or markdown
2. Use run_composio_tool() to call Composio tools
3. Handle errors gracefully with try/except
4. Print a summary of results at the end
5. For bulk operations, use loops and track progress
6. For large data, write to files instead of printing everything
7. Keep code concise and focused on the task

Example for sending an email:
result = run_composio_tool("GMAIL_SEND_EMAIL", {{
    "to": "user@example.com",
    "subject": "Hello",
    "body": "This is a test email"
}})
print(f"Email sent: {{result['success']}}")

Now generate the Python code:"#;

/// The prompt asking for workbench code for a task.
pub fn build_prompt(query: &str) -> (r: String)
    ensures
        r@ == prompt_head() + query@ + prompt_tail(),
{
    let mut v: Vec<char> = Vec::new();
    append_str(&mut v, PROMPT_HEAD);
    append_str(&mut v, query);
    append_str(&mut v, PROMPT_TAIL);
    string_from_chars(v.as_slice())
}

/// `s` without `p` in front when it starts with it.
pub open spec fn strip_prefix(s: Seq<char>, p: Seq<char>) -> Seq<char> {
    if seq_starts_with(s, p) {
        s.subrange(p.len() as int, s.len() as int)
    } else {
        s
    }
}

/// `s` without `p` at its end when it ends with it.
pub open spec fn strip_suffix(s: Seq<char>, p: Seq<char>) -> Seq<char> {
    if seq_ends_with(s, p) {
        s.subrange(0, s.len() - p.len())
    } else {
        s
    }
}

/// Generated code without surrounding whitespace and markdown fences: trimmed,
/// a leading ```` ```python ```` or ```` ``` ```` removed, a trailing
/// ```` ``` ```` removed, and trimmed again.
pub open spec fn spec_clean_code(code: Seq<char>) -> Seq<char> {
    let t = spec_trim(code);
    let a = strip_prefix(t, "```python"@);
    let b = strip_prefix(a, "```"@);
    let c = strip_suffix(b, "```"@);
    spec_trim(c)
}

fn strip_prefix_chars(s: Vec<char>, p: &str) -> (r: Vec<char>)
    ensures
        r@ == strip_prefix(s@, p@),
{
    let pc = chars_of(p);
    if starts_with_chars(s.as_slice(), pc.as_slice()) {
        sub_chars(s.as_slice(), pc.len(), s.len())
    } else {
        s
    }
}

fn strip_suffix_chars(s: Vec<char>, p: &str) -> (r: Vec<char>)
    ensures
        r@ == strip_suffix(s@, p@),
{
    let pc = chars_of(p);
    if ends_with_chars(s.as_slice(), pc.as_slice()) {
        sub_chars(s.as_slice(), 0, s.len() - pc.len())
    } else {
        s
    }
}

/// Clean up generated code by removing markdown formatting and extra whitespace
pub fn clean_generated_code(code: &str) -> (r: String)
    ensures
        r@ == spec_clean_code(code@),
{
    let c = chars_of(code);
    let t = trim_chars(c.as_slice());
    let a = strip_prefix_chars(t, "```python");
    let b = strip_prefix_chars(a, "```");
    let d = strip_suffix_chars(b, "```");
    let e = trim_chars(d.as_slice());
    string_from_chars(e.as_slice())
}

/// Operations that should not appear in workbench code.
pub open spec fn dangerous_patterns() -> Seq<Seq<char>> {
    seq![
        "import os"@,
        "import sys"@,
        "import subprocess"@,
        "__import__"@,
        "eval("@,
        "exec("@,
        "compile("@,
    ]
}

/// Validate generated Python code: it must not be blank. Dangerous
/// operations are not refused (the sandbox contains them); see
/// `dangerous_patterns_found`.
pub fn validate_code(code: &str) -> (r: Result<(), String>)
    ensures
        r is Err <==> spec_trim(code@).len() == 0,
        r matches Err(e) ==> e@ == "Generated code is empty"@,
{
    let t = crate::text::trim_str(code);
    if t.as_str().is_empty() {
        Err("Generated code is empty".to_owned())
    } else {
        Ok(())
    }
}

/// The patterns of `pats` that `code` contains, in the order of `pats`.
pub open spec fn found_in(code: Seq<char>, pats: Seq<Seq<char>>) -> Seq<Seq<char>>
    decreases pats.len(),
{
    if pats.len() == 0 {
        Seq::empty()
    } else if seq_contains(code, pats.last()) {
        found_in(code, pats.drop_last()).push(pats.last())
    } else {
        found_in(code, pats.drop_last())
    }
}

/// The dangerous patterns the code contains, in pattern order, for warnings.
pub fn dangerous_patterns_found(code: &str) -> (r: Vec<String>)
    ensures
        r@.map_values(|s: String| s@) == found_in(code@, dangerous_patterns()),
{
    let pats: [&str; 7] = ["import os", "import sys", "import subprocess", "__import__", "eval(", "exec(", "compile("];
    proof {
        reveal_strlit("import os");
        reveal_strlit("import sys");
        reveal_strlit("import subprocess");
        reveal_strlit("__import__");
        reveal_strlit("eval(");
        reveal_strlit("exec(");
        reveal_strlit("compile(");
        assert forall|k: int| 0 <= k < 7 implies #[trigger] pats@[k]@ == dangerous_patterns()[k] by {}
    }
    let c = chars_of(code);
    let mut out: Vec<String> = Vec::new();
    let mut k: usize = 0;
    proof {
        assert(dangerous_patterns().subrange(0, 0) =~= Seq::<Seq<char>>::empty());
        assert(out@.map_values(|s: String| s@) =~= Seq::<Seq<char>>::empty());
    }
    while k < 7
        invariant
            k <= 7,
            c@ == code@,
            pats@.len() == 7,
            forall|j: int| 0 <= j < 7 ==> #[trigger] pats@[j]@ == dangerous_patterns()[j],
            out@.map_values(|s: String| s@) == found_in(code@, dangerous_patterns().subrange(0, k as int)),
        decreases 7 - k,
    {
        let pc = chars_of(pats[k]);
        let ghost before = out@.map_values(|s: String| s@);
        let ghost sub = dangerous_patterns().subrange(0, k + 1);
        proof {
            assert(sub.drop_last() =~= dangerous_patterns().subrange(0, k as int));
            assert(sub.last() == dangerous_patterns()[k as int]);
        }
        if contains_chars(c.as_slice(), pc.as_slice()) {
            out.push(pats[k].to_owned());
            proof {
                assert(out@.map_values(|s: String| s@) =~= before.push(dangerous_patterns()[k as int]));
            }
        }
        k = k + 1;
    }
    proof {
        assert(dangerous_patterns().subrange(0, 7) =~= dangerous_patterns());
    }
    out
}

/// Turns the model's answer into workbench code: cleaned, then validated.
pub fn code_from_response(response: &str) -> (r: Result<String, String>)
    ensures
        spec_trim(spec_clean_code(response@)).len() == 0 ==> (r matches Err(e) && e@ == "Generated code is empty"@),
        spec_trim(spec_clean_code(response@)).len() != 0 ==> (r matches Ok(c) && c@ == spec_clean_code(response@)),
{
    let cleaned = clean_generated_code(response);
    match validate_code(cleaned.as_str()) {
        Ok(()) => Ok(cleaned),
        Err(e) => Err(e),
    }
}

} // verus!
