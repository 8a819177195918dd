//! File handling and parameter normalization: classification of file-like
//! inputs, batch validation, hint-image resolution, and the renaming of
//! caller-facing option names into the provider's wire vocabulary.

use vstd::prelude::*;
use vstd::string::*;
use crate::error::{SolveResult, TwoCaptchaError};
use crate::params::ParamMap;
use crate::strutil::{concat_str, dec_str, fmt_usize, is_prefix_of, str_contains_char,
    str_starts_with};

verus! {

/// Number of entries in the rename table.
pub open spec fn table_len() -> int {
    18
}

/// Caller-facing option name of rename-table entry `j`.
pub open spec fn table_old(j: int) -> Seq<char> {
    if j == 0 {
        "caseSensitive"@
    } else if j == 1 {
        "minLen"@
    } else if j == 2 {
        "maxLen"@
    } else if j == 3 {
        "minLength"@
    } else if j == 4 {
        "maxLength"@
    } else if j == 5 {
        "hintText"@
    } else if j == 6 {
        "hintImg"@
    } else if j == 7 {
        "url"@
    } else if j == 8 {
        "score"@
    } else if j == 9 {
        "text"@
    } else if j == 10 {
        "rows"@
    } else if j == 11 {
        "cols"@
    } else if j == 12 {
        "previousId"@
    } else if j == 13 {
        "canSkip"@
    } else if j == 14 {
        "apiServer"@
    } else if j == 15 {
        "softId"@
    } else if j == 16 {
        "callback"@
    } else {
        "datas"@
    }
}

/// Provider wire name of rename-table entry `j`.
pub open spec fn table_new(j: int) -> Seq<char> {
    if j == 0 {
        "regsense"@
    } else if j == 1 {
        "min_len"@
    } else if j == 2 {
        "max_len"@
    } else if j == 3 {
        "min_len"@
    } else if j == 4 {
        "max_len"@
    } else if j == 5 {
        "textinstructions"@
    } else if j == 6 {
        "imginstructions"@
    } else if j == 7 {
        "pageurl"@
    } else if j == 8 {
        "min_score"@
    } else if j == 9 {
        "textcaptcha"@
    } else if j == 10 {
        "recaptcharows"@
    } else if j == 11 {
        "recaptchacols"@
    } else if j == 12 {
        "previousID"@
    } else if j == 13 {
        "can_no_answer"@
    } else if j == 14 {
        "api_server"@
    } else if j == 15 {
        "soft_id"@
    } else if j == 16 {
        "pingback"@
    } else {
        "data-s"@
    }
}

/// The rename applied through entry `j` (exclusive): each present old key
/// contributes its value under the new name, later entries overriding.
pub open spec fn renamed_upto(m: Map<Seq<char>, Seq<char>>, j: int) -> Map<Seq<char>, Seq<char>>
    decreases j,
{
    if j <= 0 {
        Map::empty()
    } else {
        let prev = renamed_upto(m, j - 1);
        if m.contains_key(table_old(j - 1)) {
            prev.insert(table_new(j - 1), m[table_old(j - 1)])
        } else {
            prev
        }
    }
}

/// The old names of the first `j` rename-table entries.
pub open spec fn table_keys_upto(j: int) -> Set<Seq<char>>
    decreases j,
{
    if j <= 0 {
        Set::empty()
    } else {
        table_keys_upto(j - 1).insert(table_old(j - 1))
    }
}

/// What parsing a serialized proxy object yields: the `uri` and `type`
/// string members, or nothing when the text is not such an object. The
/// result depends on the text alone.
pub uninterp spec fn proxy_parse(s: Seq<char>) -> Option<(Seq<char>, Seq<char>)>;

/// The base64 encoding of a byte sequence; depends on the bytes alone.
pub uninterp spec fn b64_of(bytes: Seq<u8>) -> Seq<char>;

/// The proxy expansion step of normalization: a parsable `proxy` value
/// expands into the flat `proxy` and `proxytype` wire fields; an
/// unparsable one is dropped (the documented limitation of the pipeline).
pub open spec fn proxy_step(
    m: Map<Seq<char>, Seq<char>>,
    base: Map<Seq<char>, Seq<char>>,
) -> Map<Seq<char>, Seq<char>> {
    if m.contains_key("proxy"@) {
        match proxy_parse(m["proxy"@]) {
            Some(pt) => base.insert("proxy"@, pt.0).insert("proxytype"@, pt.1),
            None => base,
        }
    } else {
        base
    }
}

/// Full normalization: rename-table entries first, then the proxy
/// expansion, then every untouched key passes through unchanged (and wins
/// on a collision with a renamed key).
pub open spec fn spec_rename_params(m: Map<Seq<char>, Seq<char>>) -> Map<Seq<char>, Seq<char>> {
    proxy_step(m, renamed_upto(m, table_len())).union_prefer_right(
        m.remove_keys(table_keys_upto(table_len()).insert("proxy"@)),
    )
}

/// An input with no `.` and more than 50 characters is an already-encoded
/// inline payload.
pub open spec fn is_inline_input(s: Seq<char>) -> bool {
    !s.contains('.') && s.len() > 50
}

/// An input beginning with an HTTP scheme prefix is a remote resource.
pub open spec fn is_remote_input(s: Seq<char>) -> bool {
    is_prefix_of("http"@, s)
}

/// The wire parameters for an inline base64 submission body.
pub open spec fn inline_method_map(body: Seq<char>) -> Map<Seq<char>, Seq<char>> {
    Map::empty().insert("method"@, "base64"@).insert("body"@, body)
}

/// The wire parameters for a deferred-upload submission by local path.
pub open spec fn local_method_map(path: Seq<char>) -> Map<Seq<char>, Seq<char>> {
    Map::empty().insert("method"@, "post"@).insert("file"@, path)
}

/// The `file_1 .. file_n` mapping for the first `j` paths of a batch.
pub open spec fn files_map_upto(files: Seq<String>, j: int) -> Map<Seq<char>, Seq<char>>
    decreases j,
{
    if j <= 0 {
        Map::empty()
    } else {
        files_map_upto(files, j - 1).insert("file_"@ + dec_str(j), files[j - 1]@)
    }
}

/// Quoted, comma-separated list of the paths whose existence answer is
/// `false`, over the first `j` entries of a batch.
pub open spec fn quoted_missing_upto(files: Seq<String>, present: Seq<bool>, j: int) -> Seq<char>
    decreases j,
{
    if j <= 0 {
        Seq::empty()
    } else {
        let prev = quoted_missing_upto(files, present, j - 1);
        if present[j - 1] {
            prev
        } else {
            let q = "\""@ + files[j - 1]@ + "\""@;
            if prev.len() == 0 {
                q
            } else {
                prev + ", "@ + q
            }
        }
    }
}

/// The batch failure message listing every absent path.
pub open spec fn missing_message(files: Seq<String>, present: Seq<bool>) -> Seq<char> {
    "File not found: ["@ + quoted_missing_upto(files, present, files.len() as int) + "]"@
}

/// The allowed outcome of hint-image resolution when it succeeds:
/// untouched maps when no hint or an inline hint is present; otherwise the
/// hint (and, for a first upload, the primary `file` parameter) moves from
/// the parameters into the upload set.
pub open spec fn hint_ok_state(
    p: Map<Seq<char>, Seq<char>>,
    f: Map<Seq<char>, Seq<char>>,
    p2: Map<Seq<char>, Seq<char>>,
    f2: Map<Seq<char>, Seq<char>>,
) -> bool {
    if !p.contains_key("imginstructions"@) {
        p2 == p && f2 == f
    } else {
        let hint = p["imginstructions"@];
        if is_inline_input(hint) {
            p2 == p && f2 == f
        } else if f =~= Map::<Seq<char>, Seq<char>>::empty() && p.contains_key("file"@) {
            p2 == p.remove("imginstructions"@).remove("file"@) && f2 == f.insert(
                "file"@,
                p["file"@],
            ).insert("imginstructions"@, hint)
        } else {
            p2 == p.remove("imginstructions"@) && f2 == f.insert("imginstructions"@, hint)
        }
    }
}

/// How a single file-like input is to be submitted: parameters that are
/// ready as they stand, or a remote resource to download first.
#[derive(Debug)]
pub enum MethodSpec {
    /// The submission parameters are complete.
    Ready(ParamMap),
    /// The input names a remote resource; fetch it, then finish with
    /// [`Utils::get_method_downloaded`].
    Download(String),
}

/// Utility functions for file handling and parameter normalization.
pub struct Utils;

/// Relies on `std::path::Path::exists`. The answer depends on the
/// filesystem, so nothing is promised of it.
#[verifier::external_body]
fn path_exists(p: &str) -> bool {
    std::path::Path::new(p).exists()
}

/// Relies on `base64::engine::general_purpose::STANDARD` and its
/// `Engine::encode`: the encoding depends on the bytes alone.
#[verifier::external_body]
fn b64_encode(bytes: &Vec<u8>) -> (r: String)
    ensures
        r@ == b64_of(bytes@),
{
    base64::Engine::encode(&base64::engine::general_purpose::STANDARD, bytes)
}

/// Relies on `serde_json::from_str` and `serde_json::Value::{get, as_str}`:
/// the parse of a serialized proxy object depends on the text alone, and
/// yields its `uri` and `type` string members when they are present.
#[verifier::external_body]
fn parse_proxy(s: &String) -> (r: Option<(String, String)>)
    ensures
        r is Some <==> proxy_parse(s@) is Some,
        r matches Some(p) ==> proxy_parse(s@) matches Some(q) && p.0@ == q.0 && p.1@ == q.1,
{
    let v: serde_json::Value = serde_json::from_str(s).ok()?;
    let uri = v.get("uri")?.as_str()?.to_string();
    let typ = v.get("type")?.as_str()?.to_string();
    Some((uri, typ))
}

/// Old and new name of rename-table entry `j`.
fn table_entry(j: usize) -> (r: (&'static str, &'static str))
    requires
        j < table_len(),
    ensures
        r.0@ == table_old(j as int),
        r.1@ == table_new(j as int),
{
    match j {
        0 => ("caseSensitive", "regsense"),
        1 => ("minLen", "min_len"),
        2 => ("maxLen", "max_len"),
        3 => ("minLength", "min_len"),
        4 => ("maxLength", "max_len"),
        5 => ("hintText", "textinstructions"),
        6 => ("hintImg", "imginstructions"),
        7 => ("url", "pageurl"),
        8 => ("score", "min_score"),
        9 => ("text", "textcaptcha"),
        10 => ("rows", "recaptcharows"),
        11 => ("cols", "recaptchacols"),
        12 => ("previousId", "previousID"),
        13 => ("canSkip", "can_no_answer"),
        14 => ("apiServer", "api_server"),
        15 => ("softId", "soft_id"),
        16 => ("callback", "pingback"),
        _ => ("datas", "data-s"),
    }
}

/// Membership in the set of the first `j` old names.
proof fn lemma_table_keys_upto(j: int, k: Seq<char>)
    ensures
        table_keys_upto(j).contains(k) <==> exists|t: int| 0 <= t < j && table_old(t) == k,
    decreases j,
{
    if j > 0 {
        lemma_table_keys_upto(j - 1, k);
        if table_old(j - 1) == k {
            assert(0 <= j - 1 < j && table_old(j - 1) == k);
        }
    }
}

/// The rename table's names never collide: old names are pairwise
/// distinct, no old name is a new name, and neither side uses the two
/// reserved proxy field names.
/// Old names are pairwise distinct.
#[verifier::rlimit(100)]
#[verifier::spinoff_prover]
proof fn lemma_old_names_distinct()
    ensures
        forall|p: int, q: int|
            #![trigger table_old(p), table_old(q)]
            0 <= p < table_len() && 0 <= q < table_len() && p != q ==> table_old(p) != table_old(
                q,
            ),
{
    reveal_strlit("caseSensitive");
    reveal_strlit("minLen");
    reveal_strlit("maxLen");
    reveal_strlit("minLength");
    reveal_strlit("maxLength");
    reveal_strlit("hintText");
    reveal_strlit("hintImg");
    reveal_strlit("url");
    reveal_strlit("score");
    reveal_strlit("text");
    reveal_strlit("rows");
    reveal_strlit("cols");
    reveal_strlit("previousId");
    reveal_strlit("canSkip");
    reveal_strlit("apiServer");
    reveal_strlit("softId");
    reveal_strlit("callback");
    reveal_strlit("datas");
    assert forall|p: int, q: int|
        #![trigger table_old(p), table_old(q)]
        0 <= p < table_len() && 0 <= q < table_len() && p != q implies table_old(p) != table_old(
        q,
    ) by {
        let b = table_old(q);
        // The length and leading characters of both names must appear as
        // terms before their equality can be refuted.
        assert(b.len() >= 0);
        assert(b[0] == b[0] && b[1] == b[1]);
        if p == 0 {
            assert("caseSensitive"@[0] == 'c' && "caseSensitive"@[1] == 'a' && "caseSensitive"@.len() == 13);
            assert(table_old(0) != b);
        }
        if p == 1 {
            assert("minLen"@[0] == 'm' && "minLen"@[1] == 'i' && "minLen"@.len() == 6);
            assert(table_old(1) != b);
        }
        if p == 2 {
            assert("maxLen"@[0] == 'm' && "maxLen"@[1] == 'a' && "maxLen"@.len() == 6);
            assert(table_old(2) != b);
        }
        if p == 3 {
            assert("minLength"@[0] == 'm' && "minLength"@[1] == 'i' && "minLength"@.len() == 9);
            assert(table_old(3) != b);
        }
        if p == 4 {
            assert("maxLength"@[0] == 'm' && "maxLength"@[1] == 'a' && "maxLength"@.len() == 9);
            assert(table_old(4) != b);
        }
        if p == 5 {
            assert("hintText"@[0] == 'h' && "hintText"@[1] == 'i' && "hintText"@.len() == 8);
            assert(table_old(5) != b);
        }
        if p == 6 {
            assert("hintImg"@[0] == 'h' && "hintImg"@[1] == 'i' && "hintImg"@.len() == 7);
            assert(table_old(6) != b);
        }
        if p == 7 {
            assert("url"@[0] == 'u' && "url"@[1] == 'r' && "url"@.len() == 3);
            assert(table_old(7) != b);
        }
        if p == 8 {
            assert("score"@[0] == 's' && "score"@[1] == 'c' && "score"@.len() == 5);
            assert(table_old(8) != b);
        }
        if p == 9 {
            assert("text"@[0] == 't' && "text"@[1] == 'e' && "text"@.len() == 4);
            assert(table_old(9) != b);
        }
        if p == 10 {
            assert("rows"@[0] == 'r' && "rows"@[1] == 'o' && "rows"@.len() == 4);
            assert(table_old(10) != b);
        }
        if p == 11 {
            assert("cols"@[0] == 'c' && "cols"@[1] == 'o' && "cols"@.len() == 4);
            assert(table_old(11) != b);
        }
        if p == 12 {
            assert("previousId"@[0] == 'p' && "previousId"@[1] == 'r' && "previousId"@.len() == 10);
            assert(table_old(12) != b);
        }
        if p == 13 {
            assert("canSkip"@[0] == 'c' && "canSkip"@[1] == 'a' && "canSkip"@.len() == 7);
            assert(table_old(13) != b);
        }
        if p == 14 {
            assert("apiServer"@[0] == 'a' && "apiServer"@[1] == 'p' && "apiServer"@.len() == 9);
            assert(table_old(14) != b);
        }
        if p == 15 {
            assert("softId"@[0] == 's' && "softId"@[1] == 'o' && "softId"@.len() == 6);
            assert(table_old(15) != b);
        }
        if p == 16 {
            assert("callback"@[0] == 'c' && "callback"@[1] == 'a' && "callback"@.len() == 8);
            assert(table_old(16) != b);
        }
        if p == 17 {
            assert("datas"@[0] == 'd' && "datas"@[1] == 'a' && "datas"@.len() == 5);
            assert(table_old(17) != b);
        }
    }
}

/// No old name is a new name.
#[verifier::rlimit(100)]
#[verifier::spinoff_prover]
proof fn lemma_old_new_distinct()
    ensures
        forall|p: int, q: int|
            #![trigger table_old(p), table_new(q)]
            0 <= p < table_len() && 0 <= q < table_len() ==> table_old(p) != table_new(q),
{
    reveal_strlit("caseSensitive");
    reveal_strlit("minLen");
    reveal_strlit("maxLen");
    reveal_strlit("minLength");
    reveal_strlit("maxLength");
    reveal_strlit("hintText");
    reveal_strlit("hintImg");
    reveal_strlit("url");
    reveal_strlit("score");
    reveal_strlit("text");
    reveal_strlit("rows");
    reveal_strlit("cols");
    reveal_strlit("previousId");
    reveal_strlit("canSkip");
    reveal_strlit("apiServer");
    reveal_strlit("softId");
    reveal_strlit("callback");
    reveal_strlit("datas");
    reveal_strlit("regsense");
    reveal_strlit("min_len");
    reveal_strlit("max_len");
    reveal_strlit("textinstructions");
    reveal_strlit("imginstructions");
    reveal_strlit("pageurl");
    reveal_strlit("min_score");
    reveal_strlit("textcaptcha");
    reveal_strlit("recaptcharows");
    reveal_strlit("recaptchacols");
    reveal_strlit("previousID");
    reveal_strlit("can_no_answer");
    reveal_strlit("api_server");
    reveal_strlit("soft_id");
    reveal_strlit("pingback");
    reveal_strlit("data-s");
    assert forall|p: int, q: int|
        #![trigger table_old(p), table_new(q)]
        0 <= p < table_len() && 0 <= q < table_len() implies table_old(p) != table_new(q) by {
        let b = table_new(q);
        // The length and distinguishing characters of both names must
        // appear as terms before their equality can be refuted.
        assert(b.len() >= 0);
        assert(b[0] == b[0] && b[1] == b[1] && b[2] == b[2] && b[3] == b[3] && b[9] == b[9]);
        if p == 0 {
            assert("caseSensitive"@[0] == 'c' && "caseSensitive"@[1] == 'a' && "caseSensitive"@[2] == 's' && "caseSensitive"@[3] == 'e' && "caseSensitive"@[9] == 't' && "caseSensitive"@.len() == 13);
            assert(table_old(0) != b);
        }
        if p == 1 {
            assert("minLen"@[0] == 'm' && "minLen"@[1] == 'i' && "minLen"@[2] == 'n' && "minLen"@[3] == 'L' && "minLen"@.len() == 6);
            assert(table_old(1) != b);
        }
        if p == 2 {
            assert("maxLen"@[0] == 'm' && "maxLen"@[1] == 'a' && "maxLen"@[2] == 'x' && "maxLen"@[3] == 'L' && "maxLen"@.len() == 6);
            assert(table_old(2) != b);
        }
        if p == 3 {
            assert("minLength"@[0] == 'm' && "minLength"@[1] == 'i' && "minLength"@[2] == 'n' && "minLength"@[3] == 'L' && "minLength"@.len() == 9);
            assert(table_old(3) != b);
        }
        if p == 4 {
            assert("maxLength"@[0] == 'm' && "maxLength"@[1] == 'a' && "maxLength"@[2] == 'x' && "maxLength"@[3] == 'L' && "maxLength"@.len() == 9);
            assert(table_old(4) != b);
        }
        if p == 5 {
            assert("hintText"@[0] == 'h' && "hintText"@[1] == 'i' && "hintText"@[2] == 'n' && "hintText"@[3] == 't' && "hintText"@.len() == 8);
            assert(table_old(5) != b);
        }
        if p == 6 {
            assert("hintImg"@[0] == 'h' && "hintImg"@[1] == 'i' && "hintImg"@[2] == 'n' && "hintImg"@[3] == 't' && "hintImg"@.len() == 7);
            assert(table_old(6) != b);
        }
        if p == 7 {
            assert("url"@[0] == 'u' && "url"@[1] == 'r' && "url"@[2] == 'l' && "url"@.len() == 3);
            assert(table_old(7) != b);
        }
        if p == 8 {
            assert("score"@[0] == 's' && "score"@[1] == 'c' && "score"@[2] == 'o' && "score"@[3] == 'r' && "score"@.len() == 5);
            assert(table_old(8) != b);
        }
        if p == 9 {
            assert("text"@[0] == 't' && "text"@[1] == 'e' && "text"@[2] == 'x' && "text"@[3] == 't' && "text"@.len() == 4);
            assert(table_old(9) != b);
        }
        if p == 10 {
            assert("rows"@[0] == 'r' && "rows"@[1] == 'o' && "rows"@[2] == 'w' && "rows"@[3] == 's' && "rows"@.len() == 4);
            assert(table_old(10) != b);
        }
        if p == 11 {
            assert("cols"@[0] == 'c' && "cols"@[1] == 'o' && "cols"@[2] == 'l' && "cols"@[3] == 's' && "cols"@.len() == 4);
            assert(table_old(11) != b);
        }
        if p == 12 {
            assert("previousId"@[0] == 'p' && "previousId"@[1] == 'r' && "previousId"@[2] == 'e' && "previousId"@[3] == 'v' && "previousId"@[9] == 'd' && "previousId"@.len() == 10);
            assert(table_old(12) != b);
        }
        if p == 13 {
            assert("canSkip"@[0] == 'c' && "canSkip"@[1] == 'a' && "canSkip"@[2] == 'n' && "canSkip"@[3] == 'S' && "canSkip"@.len() == 7);
            assert(table_old(13) != b);
        }
        if p == 14 {
            assert("apiServer"@[0] == 'a' && "apiServer"@[1] == 'p' && "apiServer"@[2] == 'i' && "apiServer"@[3] == 'S' && "apiServer"@.len() == 9);
            assert(table_old(14) != b);
        }
        if p == 15 {
            assert("softId"@[0] == 's' && "softId"@[1] == 'o' && "softId"@[2] == 'f' && "softId"@[3] == 't' && "softId"@.len() == 6);
            assert(table_old(15) != b);
        }
        if p == 16 {
            assert("callback"@[0] == 'c' && "callback"@[1] == 'a' && "callback"@[2] == 'l' && "callback"@[3] == 'l' && "callback"@.len() == 8);
            assert(table_old(16) != b);
        }
        if p == 17 {
            assert("datas"@[0] == 'd' && "datas"@[1] == 'a' && "datas"@[2] == 't' && "datas"@[3] == 'a' && "datas"@.len() == 5);
            assert(table_old(17) != b);
        }
    }
}

/// Neither side of the table uses the two reserved proxy field names.
#[verifier::rlimit(100)]
#[verifier::spinoff_prover]
proof fn lemma_proxy_names_distinct()
    ensures
        forall|p: int|
            #![trigger table_old(p)]
            #![trigger table_new(p)]
            0 <= p < table_len() ==> table_old(p) != "proxy"@ && table_old(p) != "proxytype"@
                && table_new(p) != "proxy"@ && table_new(p) != "proxytype"@,
{
    reveal_strlit("caseSensitive");
    reveal_strlit("minLen");
    reveal_strlit("maxLen");
    reveal_strlit("minLength");
    reveal_strlit("maxLength");
    reveal_strlit("hintText");
    reveal_strlit("hintImg");
    reveal_strlit("url");
    reveal_strlit("score");
    reveal_strlit("text");
    reveal_strlit("rows");
    reveal_strlit("cols");
    reveal_strlit("previousId");
    reveal_strlit("canSkip");
    reveal_strlit("apiServer");
    reveal_strlit("softId");
    reveal_strlit("callback");
    reveal_strlit("datas");
    reveal_strlit("regsense");
    reveal_strlit("min_len");
    reveal_strlit("max_len");
    reveal_strlit("textinstructions");
    reveal_strlit("imginstructions");
    reveal_strlit("pageurl");
    reveal_strlit("min_score");
    reveal_strlit("textcaptcha");
    reveal_strlit("recaptcharows");
    reveal_strlit("recaptchacols");
    reveal_strlit("previousID");
    reveal_strlit("can_no_answer");
    reveal_strlit("api_server");
    reveal_strlit("soft_id");
    reveal_strlit("pingback");
    reveal_strlit("data-s");
    reveal_strlit("proxy");
    reveal_strlit("proxytype");
    assert forall|p: int|
        #![trigger table_old(p)]
        #![trigger table_new(p)]
        0 <= p < table_len() implies table_old(p) != "proxy"@ && table_old(p) != "proxytype"@
            && table_new(p) != "proxy"@ && table_new(p) != "proxytype"@ by {
        assert("proxy"@.len() == 5 && "proxytype"@.len() == 9);
        assert("proxy"@[0] == 'p' && "proxytype"@[0] == 'p');
        if p == 0 {
            assert("caseSensitive"@[0] == 'c' && "caseSensitive"@.len() == 13);
            assert("regsense"@[0] == 'r' && "regsense"@.len() == 8);
            assert(table_old(p) == table_old(0) && table_new(p) == table_new(0));
            assert(table_old(p) != "proxy"@ && table_old(p) != "proxytype"@);
            assert(table_new(p) != "proxy"@ && table_new(p) != "proxytype"@);
        }
        if p == 1 {
            assert("minLen"@[0] == 'm' && "minLen"@.len() == 6);
            assert("min_len"@[0] == 'm' && "min_len"@.len() == 7);
            assert(table_old(p) == table_old(1) && table_new(p) == table_new(1));
            assert(table_old(p) != "proxy"@ && table_old(p) != "proxytype"@);
            assert(table_new(p) != "proxy"@ && table_new(p) != "proxytype"@);
        }
        if p == 2 {
            assert("maxLen"@[0] == 'm' && "maxLen"@.len() == 6);
            assert("max_len"@[0] == 'm' && "max_len"@.len() == 7);
            assert(table_old(p) == table_old(2) && table_new(p) == table_new(2));
            assert(table_old(p) != "proxy"@ && table_old(p) != "proxytype"@);
            assert(table_new(p) != "proxy"@ && table_new(p) != "proxytype"@);
        }
        if p == 3 {
            assert("minLength"@[0] == 'm' && "minLength"@.len() == 9);
            assert("min_len"@[0] == 'm' && "min_len"@.len() == 7);
            assert(table_old(p) == table_old(3) && table_new(p) == table_new(3));
            assert(table_old(p) != "proxy"@ && table_old(p) != "proxytype"@);
            assert(table_new(p) != "proxy"@ && table_new(p) != "proxytype"@);
        }
        if p == 4 {
            assert("maxLength"@[0] == 'm' && "maxLength"@.len() == 9);
            assert("max_len"@[0] == 'm' && "max_len"@.len() == 7);
            assert(table_old(p) == table_old(4) && table_new(p) == table_new(4));
            assert(table_old(p) != "proxy"@ && table_old(p) != "proxytype"@);
            assert(table_new(p) != "proxy"@ && table_new(p) != "proxytype"@);
        }
        if p == 5 {
            assert("hintText"@[0] == 'h' && "hintText"@.len() == 8);
            assert("textinstructions"@[0] == 't' && "textinstructions"@.len() == 16);
            assert(table_old(p) == table_old(5) && table_new(p) == table_new(5));
            assert(table_old(p) != "proxy"@ && table_old(p) != "proxytype"@);
            assert(table_new(p) != "proxy"@ && table_new(p) != "proxytype"@);
        }
        if p == 6 {
            assert("hintImg"@[0] == 'h' && "hintImg"@.len() == 7);
            assert("imginstructions"@[0] == 'i' && "imginstructions"@.len() == 15);
            assert(table_old(p) == table_old(6) && table_new(p) == table_new(6));
            assert(table_old(p) != "proxy"@ && table_old(p) != "proxytype"@);
            assert(table_new(p) != "proxy"@ && table_new(p) != "proxytype"@);
        }
        if p == 7 {
            assert("url"@[0] == 'u' && "url"@.len() == 3);
            assert("pageurl"@[0] == 'p' && "pageurl"@.len() == 7);
            assert(table_old(p) == table_old(7) && table_new(p) == table_new(7));
            assert(table_old(p) != "proxy"@ && table_old(p) != "proxytype"@);
            assert(table_new(p) != "proxy"@ && table_new(p) != "proxytype"@);
        }
        if p == 8 {
            assert("score"@[0] == 's' && "score"@.len() == 5);
            assert("min_score"@[0] == 'm' && "min_score"@.len() == 9);
            assert(table_old(p) == table_old(8) && table_new(p) == table_new(8));
            assert(table_old(p) != "proxy"@ && table_old(p) != "proxytype"@);
            assert(table_new(p) != "proxy"@ && table_new(p) != "proxytype"@);
        }
        if p == 9 {
            assert("text"@[0] == 't' && "text"@.len() == 4);
            assert("textcaptcha"@[0] == 't' && "textcaptcha"@.len() == 11);
            assert(table_old(p) == table_old(9) && table_new(p) == table_new(9));
            assert(table_old(p) != "proxy"@ && table_old(p) != "proxytype"@);
            assert(table_new(p) != "proxy"@ && table_new(p) != "proxytype"@);
        }
        if p == 10 {
            assert("rows"@[0] == 'r' && "rows"@.len() == 4);
            assert("recaptcharows"@[0] == 'r' && "recaptcharows"@.len() == 13);
            assert(table_old(p) == table_old(10) && table_new(p) == table_new(10));
            assert(table_old(p) != "proxy"@ && table_old(p) != "proxytype"@);
            assert(table_new(p) != "proxy"@ && table_new(p) != "proxytype"@);
        }
        if p == 11 {
            assert("cols"@[0] == 'c' && "cols"@.len() == 4);
            assert("recaptchacols"@[0] == 'r' && "recaptchacols"@.len() == 13);
            assert(table_old(p) == table_old(11) && table_new(p) == table_new(11));
            assert(table_old(p) != "proxy"@ && table_old(p) != "proxytype"@);
            assert(table_new(p) != "proxy"@ && table_new(p) != "proxytype"@);
        }
        if p == 12 {
            assert("previousId"@[0] == 'p' && "previousId"@.len() == 10);
            assert("previousID"@[0] == 'p' && "previousID"@.len() == 10);
            assert(table_old(p) == table_old(12) && table_new(p) == table_new(12));
            assert(table_old(p) != "proxy"@ && table_old(p) != "proxytype"@);
            assert(table_new(p) != "proxy"@ && table_new(p) != "proxytype"@);
        }
        if p == 13 {
            assert("canSkip"@[0] == 'c' && "canSkip"@.len() == 7);
            assert("can_no_answer"@[0] == 'c' && "can_no_answer"@.len() == 13);
            assert(table_old(p) == table_old(13) && table_new(p) == table_new(13));
            assert(table_old(p) != "proxy"@ && table_old(p) != "proxytype"@);
            assert(table_new(p) != "proxy"@ && table_new(p) != "proxytype"@);
        }
        if p == 14 {
            assert("apiServer"@[0] == 'a' && "apiServer"@.len() == 9);
            assert("api_server"@[0] == 'a' && "api_server"@.len() == 10);
            assert(table_old(p) == table_old(14) && table_new(p) == table_new(14));
            assert(table_old(p) != "proxy"@ && table_old(p) != "proxytype"@);
            assert(table_new(p) != "proxy"@ && table_new(p) != "proxytype"@);
        }
        if p == 15 {
            assert("softId"@[0] == 's' && "softId"@.len() == 6);
            assert("soft_id"@[0] == 's' && "soft_id"@.len() == 7);
            assert(table_old(p) == table_old(15) && table_new(p) == table_new(15));
            assert(table_old(p) != "proxy"@ && table_old(p) != "proxytype"@);
            assert(table_new(p) != "proxy"@ && table_new(p) != "proxytype"@);
        }
        if p == 16 {
            assert("callback"@[0] == 'c' && "callback"@.len() == 8);
            assert("pingback"@[0] == 'p' && "pingback"@.len() == 8);
            assert(table_old(p) == table_old(16) && table_new(p) == table_new(16));
            assert(table_old(p) != "proxy"@ && table_old(p) != "proxytype"@);
            assert(table_new(p) != "proxy"@ && table_new(p) != "proxytype"@);
        }
        if p == 17 {
            assert("datas"@[0] == 'd' && "datas"@.len() == 5);
            assert("data-s"@[0] == 'd' && "data-s"@.len() == 6);
            assert(table_old(p) == table_old(17) && table_new(p) == table_new(17));
            assert(table_old(p) != "proxy"@ && table_old(p) != "proxytype"@);
            assert(table_new(p) != "proxy"@ && table_new(p) != "proxytype"@);
        }
    }
}

/// The rename table's names never collide: old names are pairwise
/// distinct, no old name is a new name, and neither side uses the two
/// reserved proxy field names.
pub proof fn lemma_table_distinct()
    ensures
        forall|p: int, q: int|
            #![trigger table_old(p), table_old(q)]
            0 <= p < table_len() && 0 <= q < table_len() && p != q ==> table_old(p) != table_old(
                q,
            ),
        forall|p: int, q: int|
            #![trigger table_old(p), table_new(q)]
            0 <= p < table_len() && 0 <= q < table_len() ==> table_old(p) != table_new(q),
        forall|p: int|
            #![trigger table_old(p)]
            #![trigger table_new(p)]
            0 <= p < table_len() ==> table_old(p) != "proxy"@ && table_old(p) != "proxytype"@
                && table_new(p) != "proxy"@ && table_new(p) != "proxytype"@,
{
    lemma_old_names_distinct();
    lemma_old_new_distinct();
    lemma_proxy_names_distinct();
}

/// Entry `j`'s renamed value survives the remaining table steps: after
/// step `i`, the wire name of entry `j` still maps to the old key's value,
/// provided no later processed entry renames another present key to the
/// same wire name.
proof fn lemma_renamed_upto_carries(m: Map<Seq<char>, Seq<char>>, j: int, i: int)
    requires
        0 <= j < i <= table_len(),
        m.contains_key(table_old(j)),
        forall|k: int|
            j < k < i && table_new(k) == table_new(j) ==> !m.contains_key(#[trigger] table_old(k)),
    ensures
        renamed_upto(m, i).contains_key(table_new(j)),
        renamed_upto(m, i)[table_new(j)] == m[table_old(j)],
    decreases i,
{
    if i == j + 1 {
    } else {
        lemma_renamed_upto_carries(m, j, i - 1);
        if m.contains_key(table_old(i - 1)) {
            assert(table_new(i - 1) != table_new(j));
        }
    }
}

/// Every key of the partial rename is a wire name of a processed entry.
proof fn lemma_renamed_upto_dom(m: Map<Seq<char>, Seq<char>>, i: int, k: Seq<char>)
    requires
        0 <= i,
    ensures
        renamed_upto(m, i).contains_key(k) ==> exists|t: int| 0 <= t < i && table_new(t) == k,
    decreases i,
{
    if i > 0 {
        lemma_renamed_upto_dom(m, i - 1, k);
        if renamed_upto(m, i).contains_key(k) && !renamed_upto(m, i - 1).contains_key(k) {
            assert(0 <= i - 1 < i && table_new(i - 1) == k);
        }
    }
}

/// Law: for every rename-table entry, normalizing a mapping that holds
/// the entry's old key yields a mapping holding the entry's wire name
/// with the same value, and no longer holding the old key. Inputs that
/// would override the renamed value are excluded: mappings that also hold
/// another old key renaming to the same wire name, or the wire name
/// itself (which passes through unchanged and wins the collision).
pub proof fn lemma_rename_entry(m: Map<Seq<char>, Seq<char>>, j: int)
    requires
        0 <= j < table_len(),
        m.contains_key(table_old(j)),
        forall|k: int|
            0 <= k < table_len() && k != j && table_new(k) == table_new(j)
                ==> !m.contains_key(#[trigger] table_old(k)),
        !m.contains_key(table_new(j)),
    ensures
        spec_rename_params(m).contains_key(table_new(j)),
        spec_rename_params(m)[table_new(j)] == m[table_old(j)],
        !spec_rename_params(m).contains_key(table_old(j)),
{
    lemma_table_distinct();
    lemma_renamed_upto_carries(m, j, table_len());
    let base = renamed_upto(m, table_len());
    let withproxy = proxy_step(m, base);
    assert(withproxy.contains_key(table_new(j)) && withproxy[table_new(j)] == m[table_old(j)]);
    lemma_renamed_upto_dom(m, table_len(), table_old(j));
    assert(!base.contains_key(table_old(j)));
    assert(!withproxy.contains_key(table_old(j)));
    let leftover = m.remove_keys(table_keys_upto(table_len()).insert("proxy"@));
    assert(!leftover.contains_key(table_new(j)));
    lemma_table_keys_upto(table_len(), table_old(j));
    assert(!leftover.contains_key(table_old(j)));
}

impl Utils {
    /// Determine the submission method for a file-like input: an inline
    /// encoded payload is forwarded verbatim as `body`; a remote URL is
    /// handed back to be downloaded; a local path is checked for existence
    /// and forwarded by path. An empty input fails at once.
    pub fn get_method(file: &str) -> (r: SolveResult<MethodSpec>)
        ensures
            file@.len() == 0 ==> (r matches Err(TwoCaptchaError::Validation(m)) && m@
                == "File required"@),
            file@.len() > 0 && is_inline_input(file@) ==> (r matches Ok(MethodSpec::Ready(p))
                && p.wf() && p@ == inline_method_map(file@)),
            file@.len() > 0 && !is_inline_input(file@) && is_remote_input(file@) ==> (r matches Ok(
                MethodSpec::Download(u),
            ) && u@ == file@),
            file@.len() > 0 && !is_inline_input(file@) && !is_remote_input(file@) ==> (r matches Ok(
                MethodSpec::Ready(p),
            ) && p.wf() && p@ == local_method_map(file@)) || (r matches Err(
                TwoCaptchaError::Validation(m),
            ) && m@ == "File not found: "@ + file@),
            r matches Err(e) ==> (e matches TwoCaptchaError::Validation(_)),
    {
        if file.unicode_len() == 0 {
            return Err(TwoCaptchaError::Validation("File required".to_owned()));
        }
        if !str_contains_char(file, '.') && file.unicode_len() > 50 {
            let mut result = ParamMap::new();
            result.insert("method".to_owned(), "base64".to_owned());
            result.insert("body".to_owned(), file.to_owned());
            return Ok(MethodSpec::Ready(result));
        }
        if str_starts_with(file, "http") {
            return Ok(MethodSpec::Download(file.to_owned()));
        }
        if !path_exists(file) {
            return Err(
                TwoCaptchaError::Validation(concat_str("File not found: ", file)),
            );
        }
        let mut result = ParamMap::new();
        result.insert("method".to_owned(), "post".to_owned());
        result.insert("file".to_owned(), file.to_owned());
        Ok(MethodSpec::Ready(result))
    }

    /// Finish resolving a remote input once its download came back: a
    /// transport failure or a non-200 status fails with a validation
    /// error naming the URL, and a successful body is base64-encoded and
    /// forwarded as `body`.
    pub fn get_method_downloaded(file: &str, fetched: Option<(u16, Vec<u8>)>) -> (r: SolveResult<
        ParamMap,
    >)
        ensures
            (fetched matches Some(f) ==> (f.0 == 200 ==> (r matches Ok(p) && p.wf() && p@
                == inline_method_map(b64_of(f.1@))))),
            (fetched matches Some(f) ==> (f.0 != 200 ==> (r matches Err(
                TwoCaptchaError::Validation(m),
            ) && m@ == "File could not be downloaded from url: "@ + file@))),
            fetched is None ==> (r matches Err(TwoCaptchaError::Validation(m)) && m@
                == "File could not be downloaded from url: "@ + file@),
            r matches Err(e) ==> (e matches TwoCaptchaError::Validation(_)),
    {
        let body = match fetched {
            Some(f) => {
                if f.0 == 200 {
                    f.1
                } else {
                    return Err(
                        TwoCaptchaError::Validation(
                            concat_str("File could not be downloaded from url: ", file),
                        ),
                    );
                }
            },
            None => {
                return Err(
                    TwoCaptchaError::Validation(
                        concat_str("File could not be downloaded from url: ", file),
                    ),
                );
            },
        };
        let encoded = b64_encode(&body);
        let mut result = ParamMap::new();
        result.insert("method".to_owned(), "base64".to_owned());
        result.insert("body".to_owned(), encoded);
        Ok(result)
    }

    /// Base64 encoding of a byte payload, as submitted in an inline
    /// `body` parameter.
    pub fn encode_body(bytes: &Vec<u8>) -> (r: String)
        ensures
            r@ == b64_of(bytes@),
    {
        b64_encode(bytes)
    }

    /// Decide a batch from the per-path existence answers: more than
    /// `max_files` paths fail at once naming the maximum; any absent path
    /// fails listing every absent one; otherwise the paths map to
    /// `file_1 .. file_n` in input order.
    pub fn extract_files_checked(files: Vec<String>, present: Vec<bool>, max_files: usize) -> (r:
        SolveResult<ParamMap>)
        requires
            present@.len() == files@.len(),
        ensures
            files@.len() > max_files ==> (r matches Err(TwoCaptchaError::Validation(m)) && m@
                == "Too many files (max: "@ + dec_str(max_files as int) + ")"@),
            files@.len() <= max_files && (forall|j: int|
                0 <= j < present@.len() ==> present@[j]) ==> (r matches Ok(p) && p.wf() && p@
                == files_map_upto(files@, files@.len() as int)),
            files@.len() <= max_files && !(forall|j: int|
                0 <= j < present@.len() ==> present@[j]) ==> (r matches Err(
                TwoCaptchaError::Validation(m),
            ) && m@ == missing_message(files@, present@)),
    {
        if files.len() > max_files {
            let mut msg = concat_str("Too many files (max: ", fmt_usize(max_files).as_str());
            msg.append(")");
            return Err(TwoCaptchaError::Validation(msg));
        }
        let n = files.len();
        let mut list = String::new();
        let mut found = false;
        let mut i: usize = 0;
        while i < n
            invariant
                0 <= i <= n,
                n == files@.len(),
                present@.len() == files@.len(),
                list@ == quoted_missing_upto(files@, present@, i as int),
                found == (exists|j: int| 0 <= j < i && !present@[j]),
                found <==> list@.len() != 0,
            decreases n - i,
        {
            if !present[i] {
                if found {
                    list.append(", ");
                }
                list.append("\"");
                list.append(files[i].as_str());
                list.append("\"");
                proof {
                    reveal_strlit("\"");
                    assert("\""@.len() == 1);
                    assert(list@ =~= quoted_missing_upto(files@, present@, i + 1));
                    assert(list@.len() != 0);
                    assert(0 <= i < i + 1 && !present@[i as int]);
                }
                found = true;
            } else {
                proof {
                    assert forall|j: int| 0 <= j < i + 1 && !present@[j] implies (exists|j2: int|
                        0 <= j2 < i && !present@[j2]) by {
                        assert(j != i);
                    }
                }
            }
            i += 1;
        }
        if found {
            let mut msg = concat_str("File not found: [", list.as_str());
            msg.append("]");
            proof {
                assert(msg@ =~= missing_message(files@, present@));
            }
            return Err(TwoCaptchaError::Validation(msg));
        }
        let mut result = ParamMap::new();
        let mut i: usize = 0;
        while i < n
            invariant
                0 <= i <= n,
                n == files@.len(),
                result.wf(),
                result@ == files_map_upto(files@, i as int),
            decreases n - i,
        {
            let mut key = "file_".to_owned();
            key.append(fmt_usize(i + 1).as_str());
            result.insert(key, files[i].clone());
            i += 1;
        }
        Ok(result)
    }

    /// Validate a batch of file paths against the filesystem: the
    /// decision over the existence answers is
    /// [`Utils::extract_files_checked`], whose contract fixes each
    /// outcome; an empty batch consults nothing and always succeeds.
    pub fn extract_files(files: Vec<String>, max_files: usize) -> (r: SolveResult<ParamMap>)
        ensures
            files@.len() > max_files ==> (r matches Err(TwoCaptchaError::Validation(m)) && m@
                == "Too many files (max: "@ + dec_str(max_files as int) + ")"@),
            files@.len() == 0 ==> (r matches Ok(p) && p.wf() && p@ == Map::<
                Seq<char>,
                Seq<char>,
            >::empty()),
            r matches Ok(p) ==> files@.len() <= max_files && p.wf() && p@ == files_map_upto(
                files@,
                files@.len() as int,
            ),
            r matches Err(e) ==> (e matches TwoCaptchaError::Validation(m) && (m@
                == "Too many files (max: "@ + dec_str(max_files as int) + ")"@ || is_prefix_of(
                "File not found: ["@,
                m@,
            ))),
    {
        let n = files.len();
        let mut present: Vec<bool> = Vec::new();
        let mut i: usize = 0;
        while i < n
            invariant
                0 <= i <= n,
                n == files@.len(),
                present@.len() == i,
            decreases n - i,
        {
            present.push(path_exists(files[i].as_str()));
            i += 1;
        }
        let r = Self::extract_files_checked(files, present, max_files);
        proof {
            assert(missing_message(files@, present@).subrange(
                0,
                "File not found: ["@.len() as int,
            ) =~= "File not found: ["@);
        }
        r
    }

    /// Resolve a hint image carried under `imginstructions`: an inline
    /// encoded value stays a parameter; a path value must exist and moves
    /// into the upload set, pulling the primary `file` parameter along
    /// when the set was empty.
    pub fn check_hint_img(params: ParamMap, files: ParamMap) -> (r: SolveResult<
        (ParamMap, ParamMap),
    >)
        requires
            params.wf(),
            files.wf(),
        ensures
            match r {
                Ok(pf) => pf.0.wf() && pf.1.wf() && hint_ok_state(params@, files@, pf.0@, pf.1@),
                Err(e) => e matches TwoCaptchaError::Validation(m) && params@.contains_key(
                    "imginstructions"@,
                ) && !is_inline_input(params@["imginstructions"@]) && m@ == "File not found: "@
                    + params@["imginstructions"@],
            },
    {
        let ghost p0 = params@;
        let ghost f0 = files@;
        proof {
            reveal_strlit("imginstructions");
            reveal_strlit("file");
            assert("imginstructions"@.len() == 15 && "file"@.len() == 4);
        }
        let mut params = params;
        let mut files = files;
        let hint = match params.remove("imginstructions") {
            None => {
                return Ok((params, files));
            },
            Some(hint) => hint,
        };
        if !str_contains_char(hint.as_str(), '.') && hint.as_str().unicode_len() > 50 {
            params.insert("imginstructions".to_owned(), hint);
            proof {
                assert(params@ =~= p0);
            }
            return Ok((params, files));
        }
        if !path_exists(hint.as_str()) {
            return Err(
                TwoCaptchaError::Validation(concat_str("File not found: ", hint.as_str())),
            );
        }
        if files.is_empty() {
            match params.remove("file") {
                Some(file) => {
                    files.insert("file".to_owned(), file);
                    files.insert("imginstructions".to_owned(), hint);
                    proof {
                        assert(hint_ok_state(p0, f0, params@, files@));
                    }
                    return Ok((params, files));
                },
                None => {},
            }
        }
        files.insert("imginstructions".to_owned(), hint);
        proof {
            assert(hint_ok_state(p0, f0, params@, files@));
        }
        Ok((params, files))
    }

    /// Rename caller-facing option names to the provider's wire names: the
    /// fixed table applies first, a serialized proxy object expands into
    /// the flat `proxy`/`proxytype` pair (an unparsable one is dropped —
    /// the documented limitation), and every other key passes through
    /// unchanged.
    pub fn rename_params(params: ParamMap) -> (r: ParamMap)
        requires
            params.wf(),
        ensures
            r.wf(),
            r@ == spec_rename_params(params@),
    {
        let ghost m0 = params@;
        proof {
            lemma_table_distinct();
        }
        let mut rest = params;
        let mut out = ParamMap::new();
        let mut j: usize = 0;
        while j < 18
            invariant
                0 <= j <= 18,
                rest.wf(),
                out.wf(),
                out@ == renamed_upto(m0, j as int),
                rest@ == m0.remove_keys(table_keys_upto(j as int)),
                forall|p: int, q: int|
                    0 <= p < table_len() && 0 <= q < table_len() && p != q ==> table_old(p)
                        != table_old(q),
            decreases 18 - j,
        {
            let (oldk, newk) = table_entry(j);
            proof {
                lemma_table_keys_upto(j as int, table_old(j as int));
            }
            match rest.remove(oldk) {
                Some(v) => {
                    out.insert(newk.to_owned(), v);
                },
                None => {},
            }
            proof {
                assert(rest@ =~= m0.remove_keys(table_keys_upto(j + 1)));
            }
            j += 1;
        }
        proof {
            lemma_table_keys_upto(18, "proxy"@);
        }
        match rest.remove("proxy") {
            Some(pstr) => {
                match parse_proxy(&pstr) {
                    Some(pt) => {
                        out.insert("proxy".to_owned(), pt.0);
                        out.insert("proxytype".to_owned(), pt.1);
                    },
                    None => {},
                }
            },
            None => {},
        }
        proof {
            assert(rest@ =~= m0.remove_keys(table_keys_upto(table_len()).insert("proxy"@)));
            assert(out@ == proxy_step(m0, renamed_upto(m0, table_len())));
        }
        out.extend(rest);
        out
    }
}

} // verus!
