//! Names of the resources that one build or one run owns: image tags,
//! container names, workspace directories and the files inside them.
//!
//! Every name carries a fresh token, so that concurrent invocations never
//! share a resource.

use vstd::prelude::*;

verus! {

/// A character of a hyphenated lower-case UUID.
pub open spec fn is_token_char(c: char) -> bool {
    ('0' <= c && c <= '9') || ('a' <= c && c <= 'f') || c == '-'
}

/// The shape of a unique token: a hyphenated lower-case UUID.
pub open spec fn is_token(t: Seq<char>) -> bool {
    &&& t.len() == 36
    &&& forall|i: int| 0 <= i < t.len() ==> is_token_char(#[trigger] t[i])
}

/// Relies on `uuid::Uuid::now_v7` for a time-ordered unique id, rendered by
/// its `Display` impl in the 36-character hyphenated lower-case form.
#[verifier::external_body]
fn uuid_v7_token() -> (r: String)
    ensures
        is_token(r@),
{
    uuid::Uuid::now_v7().to_string()
}

/// Draws a fresh token for one build or one run.
pub fn fresh_token() -> (r: String)
    ensures
        is_token(r@),
{
    uuid_v7_token()
}

/// The tag of the image built for logical name `name`.
pub open spec fn image_tag(name: Seq<char>, token: Seq<char>) -> Seq<char> {
    "botpy-"@ + name + ":"@ + token
}

/// The name of a container started for logical name `name`.
pub open spec fn container_name(name: Seq<char>, token: Seq<char>) -> Seq<char> {
    "botpy-"@ + name + "-"@ + token
}

/// The directory of a script run's workspace under `base`.
pub open spec fn workspace_dir(base: Seq<char>, token: Seq<char>) -> Seq<char> {
    base + "/python-"@ + token
}

/// The file in a workspace that holds the script's source.
pub open spec fn input_file(dir: Seq<char>) -> Seq<char> {
    dir + "/python-code.py"@
}

/// The file in a workspace that receives the script's standard output.
pub open spec fn output_file(dir: Seq<char>) -> Seq<char> {
    dir + "/output.txt"@
}

/// The tar file that holds the build context of image `name`.
pub open spec fn tar_path(dir: Seq<char>, name: Seq<char>) -> Seq<char> {
    dir + "/"@ + name + ".tar"@
}

/// Builds the tag of the image for `name`.
pub fn make_image_tag(name: &str, token: &str) -> (r: String)
    ensures
        r@ == image_tag(name@, token@),
{
    String::from_str("botpy-").concat(name).concat(":").concat(token)
}

/// Builds the name of a container for `name`.
pub fn make_container_name(name: &str, token: &str) -> (r: String)
    ensures
        r@ == container_name(name@, token@),
{
    String::from_str("botpy-").concat(name).concat("-").concat(token)
}

/// Builds the workspace directory path under `base`.
pub fn make_workspace_dir(base: &str, token: &str) -> (r: String)
    ensures
        r@ == workspace_dir(base@, token@),
{
    String::from_str(base).concat("/python-").concat(token)
}

/// The path of the source file in workspace `dir`.
pub fn make_input_file(dir: &str) -> (r: String)
    ensures
        r@ == input_file(dir@),
{
    String::from_str(dir).concat("/python-code.py")
}

/// The path of the output file in workspace `dir`.
pub fn make_output_file(dir: &str) -> (r: String)
    ensures
        r@ == output_file(dir@),
{
    String::from_str(dir).concat("/output.txt")
}

/// The path of the tar file for image `name` under `dir`.
pub fn make_tar_path(dir: &str, name: &str) -> (r: String)
    ensures
        r@ == tar_path(dir@, name@),
{
    String::from_str(dir).concat("/").concat(name).concat(".tar")
}

proof fn lemma_suffix_cancel(a: Seq<char>, s: Seq<char>, t: Seq<char>)
    requires
        a + s == a + t,
    ensures
        s == t,
{
    assert(s =~= (a + s).subrange(a.len() as int, (a + s).len() as int));
    assert(t =~= (a + t).subrange(a.len() as int, (a + t).len() as int));
}

proof fn lemma_prefix_cancel(s: Seq<char>, t: Seq<char>, a: Seq<char>)
    requires
        s + a == t + a,
    ensures
        s == t,
{
    assert(s =~= (s + a).subrange(0, s.len() as int));
    assert(t =~= (t + a).subrange(0, t.len() as int));
}

/// Two invocations that drew different tokens share no resource: their
/// containers, workspace directories, source files and output files all
/// differ, so neither can read the other's output.
pub proof fn law_distinct_tokens_distinct_resources(
    name: Seq<char>,
    base: Seq<char>,
    t1: Seq<char>,
    t2: Seq<char>,
)
    requires
        t1 != t2,
    ensures
        container_name(name, t1) != container_name(name, t2),
        image_tag(name, t1) != image_tag(name, t2),
        workspace_dir(base, t1) != workspace_dir(base, t2),
        input_file(workspace_dir(base, t1)) != input_file(workspace_dir(base, t2)),
        output_file(workspace_dir(base, t1)) != output_file(workspace_dir(base, t2)),
{
    let c = "botpy-"@ + name + "-"@;
    assert(container_name(name, t1) == c + t1);
    assert(container_name(name, t2) == c + t2);
    if c + t1 == c + t2 {
        lemma_suffix_cancel(c, t1, t2);
    }
    let g = "botpy-"@ + name + ":"@;
    assert(image_tag(name, t1) == g + t1);
    assert(image_tag(name, t2) == g + t2);
    if g + t1 == g + t2 {
        lemma_suffix_cancel(g, t1, t2);
    }
    let w = base + "/python-"@;
    let d1 = workspace_dir(base, t1);
    let d2 = workspace_dir(base, t2);
    assert(d1 == w + t1);
    assert(d2 == w + t2);
    if d1 == d2 {
        lemma_suffix_cancel(w, t1, t2);
    }
    if input_file(d1) == input_file(d2) {
        lemma_prefix_cancel(d1, d2, "/python-code.py"@);
    }
    if output_file(d1) == output_file(d2) {
        lemma_prefix_cancel(d1, d2, "/output.txt"@);
    }
}

} // verus!
