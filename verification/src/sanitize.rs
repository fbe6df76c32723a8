//! Argument and inbound-message sanitization.
//!
//! Both surfaces share one technique: a fixed table of deny patterns plus
//! structural checks, failing closed on the first match. A denylist is a
//! known-incomplete defense: these patterns are a floor against known
//! dangerous classes, not a proof of injection-safety.

use vstd::prelude::*;
use crate::text::{
    after_last, contains_seq, exec_after_last, exec_contains, exec_is_space, exec_is_word,
    exec_matches_at, exec_parse_u16, is_space_char, is_word_char, matches_at, parsed_u16,
};

verus! {

/// Why an argument list was rejected.
#[derive(Debug)]
pub enum ArgError {
    /// The argument matched a deny pattern; the whole list is rejected.
    DangerousArgument { arg: String },
    /// The argument is a port specifier with a malformed or privileged value.
    InvalidPort { arg: String },
}

/// Why an inbound message was rejected.
#[derive(Debug, PartialEq, Eq, Structural, Clone, Copy)]
pub enum MsgError {
    MessageTooLarge,
    MaliciousContent,
}

// --- the deny table for process arguments ---

/// Shell metacharacters, including `$` of command substitution `$(`.
pub open spec fn is_shell_meta(c: char) -> bool {
    c == ';' || c == '&' || c == '|' || c == '`' || c == '$'
}

pub open spec fn arg_has_shell_meta(s: Seq<char>) -> bool {
    exists|i: int| 0 <= i < s.len() && is_shell_meta(s[i])
}

/// The path-traversal sequence `../`.
pub open spec fn traversal_pat() -> Seq<char> {
    seq!['.', '.', '/']
}

pub open spec fn arg_has_traversal(s: Seq<char>) -> bool {
    contains_seq(s, traversal_pat())
}

/// A character a well-formed flag argument may contain after its dashes.
pub open spec fn is_flag_char(c: char) -> bool {
    is_word_char(c) || c == '-' || c == '=' || c == '.'
}

/// A well-formed flag: a leading dash followed only by flag characters.
pub open spec fn flag_shaped(s: Seq<char>) -> bool {
    s.len() >= 2 && s[0] == '-' && (forall|i: int| 1 <= i < s.len() ==> is_flag_char(s[i]))
}

/// A leading dash that is not well-formed flag syntax could be misread by the
/// worker's own argument parser; such arguments are rejected.
pub open spec fn arg_bad_dash(s: Seq<char>) -> bool {
    s.len() > 0 && s[0] == '-' && !flag_shaped(s)
}

/// A `>` followed by optional whitespace and `/dev/`: device redirection.
pub open spec fn dev_redirect_at(s: Seq<char>, i: int, j: int) -> bool {
    0 <= i && i + 1 <= j && j + 5 <= s.len() && s[i] == '>' && (forall|m: int|
        i + 1 <= m < j ==> is_space_char(s[m])) && s[j] == '/' && s[j + 1] == 'd' && s[j + 2]
        == 'e' && s[j + 3] == 'v' && s[j + 4] == '/'
}

pub open spec fn dev_redirect_from(s: Seq<char>, i: int) -> bool {
    exists|j: int| dev_redirect_at(s, i, j)
}

pub open spec fn arg_has_dev_redirect(s: Seq<char>) -> bool {
    exists|i: int| dev_redirect_from(s, i)
}

/// The deny table for one argument: shell metacharacters (which subsume the
/// `$(` of command substitution), path traversal, malformed leading-dash
/// syntax, and device redirection.
pub open spec fn arg_dangerous(s: Seq<char>) -> bool {
    arg_has_shell_meta(s) || arg_has_traversal(s) || arg_bad_dash(s) || arg_has_dev_redirect(s)
}

// --- the structural port check for port-specifier arguments ---

pub open spec fn port_eq_prefix() -> Seq<char> {
    seq!['-', '-', 'p', 'o', 'r', 't', '=']
}

/// An argument that names the worker's port: `--port=N` or `-p...` style.
pub open spec fn is_port_specifier(s: Seq<char>) -> bool {
    matches_at(s, port_eq_prefix(), 0) || (s.len() >= 2 && s[0] == '-' && s[1] == 'p')
}

/// A port specifier must carry an unprivileged numeric port value.
pub open spec fn port_arg_ok(s: Seq<char>) -> bool {
    !is_port_specifier(s) || match parsed_u16(after_last(s, '=')) {
        Some(p) => p >= 1024,
        None => false,
    }
}

/// An argument is cleared when it matches no deny pattern and, if it is a
/// port specifier, carries a well-formed unprivileged port.
pub open spec fn arg_cleared(s: Seq<char>) -> bool {
    !arg_dangerous(s) && port_arg_ok(s)
}

pub open spec fn args_all_cleared(args: Seq<String>) -> bool {
    forall|i: int| 0 <= i < args.len() ==> arg_cleared(args[i]@)
}

/// The error returned for a faulty argument whose text is `a`.
pub open spec fn arg_error_for(e: ArgError, a: Seq<char>) -> bool {
    match e {
        ArgError::DangerousArgument { arg } => arg@ == a && arg_dangerous(a),
        ArgError::InvalidPort { arg } => arg@ == a && !arg_dangerous(a) && !port_arg_ok(a),
    }
}

// --- executable scanners, each exact against its spec ---

/// Maximal run of word characters starting at `start`.
fn scan_word_end(s: &str, start: usize) -> (j: usize)
    requires
        start <= s@.len(),
    ensures
        start <= j <= s@.len(),
        forall|m: int| start <= m < j ==> is_word_char(s@[m]),
        j < s@.len() ==> !is_word_char(s@[j as int]),
{
    let n = s.unicode_len();
    let mut j: usize = start;
    while j < n && exec_is_word(s.get_char(j))
        invariant
            n == s@.len(),
            start <= j <= n,
            forall|m: int| start <= m < j ==> is_word_char(s@[m]),
        decreases n - j,
    {
        j += 1;
    }
    j
}

/// Maximal run of whitespace characters starting at `start`.
fn scan_space_end(s: &str, start: usize) -> (j: usize)
    requires
        start <= s@.len(),
    ensures
        start <= j <= s@.len(),
        forall|m: int| start <= m < j ==> is_space_char(s@[m]),
        j < s@.len() ==> !is_space_char(s@[j as int]),
{
    let n = s.unicode_len();
    let mut j: usize = start;
    while j < n && exec_is_space(s.get_char(j))
        invariant
            n == s@.len(),
            start <= j <= n,
            forall|m: int| start <= m < j ==> is_space_char(s@[m]),
        decreases n - j,
    {
        j += 1;
    }
    j
}

/// A whitespace run bounded on both sides ends exactly where the maximal
/// scan ends.
proof fn lemma_space_run_end(s: Seq<char>, start: int, kmax: int, k: int)
    requires
        0 <= start <= kmax <= s.len(),
        forall|m: int| start <= m < kmax ==> is_space_char(s[m]),
        kmax < s.len() ==> !is_space_char(s[kmax]),
        start <= k < s.len(),
        forall|m: int| start <= m < k ==> is_space_char(s[m]),
        !is_space_char(s[k]),
    ensures
        k == kmax,
{
    if k < kmax {
        assert(is_space_char(s[k]));
    } else if k > kmax {
        assert(is_space_char(s[kmax]));
    }
}

proof fn lemma_word_run_end(s: Seq<char>, start: int, jmax: int, j: int)
    requires
        0 <= start <= jmax <= s.len(),
        forall|m: int| start <= m < jmax ==> is_word_char(s[m]),
        jmax < s.len() ==> !is_word_char(s[jmax]),
        start <= j < s.len(),
        forall|m: int| start <= m < j ==> is_word_char(s[m]),
        !is_word_char(s[j]),
    ensures
        j == jmax,
{
    if j < jmax {
        assert(is_word_char(s[j]));
    } else if j > jmax {
        assert(is_word_char(s[jmax]));
    }
}

fn exec_has_shell_meta(s: &str) -> (b: bool)
    ensures
        b == arg_has_shell_meta(s@),
{
    let n = s.unicode_len();
    let mut i: usize = 0;
    while i < n
        invariant
            n == s@.len(),
            i <= n,
            forall|k: int| 0 <= k < i ==> !is_shell_meta(s@[k]),
        decreases n - i,
    {
        let c = s.get_char(i);
        if c == ';' || c == '&' || c == '|' || c == '`' || c == '$' {
            return true;
        }
        i += 1;
    }
    false
}

fn exec_flag_shaped(s: &str) -> (b: bool)
    ensures
        b == flag_shaped(s@),
{
    let n = s.unicode_len();
    if n < 2 {
        return false;
    }
    if s.get_char(0) != '-' {
        return false;
    }
    let mut i: usize = 1;
    while i < n
        invariant
            n == s@.len(),
            1 <= i <= n,
            forall|k: int| 1 <= k < i ==> is_flag_char(s@[k]),
        decreases n - i,
    {
        let c = s.get_char(i);
        if !(exec_is_word(c) || c == '-' || c == '=' || c == '.') {
            return false;
        }
        i += 1;
    }
    true
}

/// Does a device redirection start at position `i`?
fn dev_redirect_here(s: &str, i: usize) -> (b: bool)
    requires
        i < s@.len(),
    ensures
        b == dev_redirect_from(s@, i as int),
{
    let n = s.unicode_len();
    if s.get_char(i) != '>' {
        return false;
    }
    let j = scan_space_end(s, i + 1);
    if n - j >= 5 && s.get_char(j) == '/' && s.get_char(j + 1) == 'd' && s.get_char(j + 2) == 'e'
        && s.get_char(j + 3) == 'v' && s.get_char(j + 4) == '/' {
        proof {
            assert(dev_redirect_at(s@, i as int, j as int));
        }
        true
    } else {
        proof {
            assert forall|j2: int| !dev_redirect_at(s@, i as int, j2) by {
                if dev_redirect_at(s@, i as int, j2) {
                    lemma_space_run_end(s@, i + 1, j as int, j2);
                }
            }
        }
        false
    }
}

fn exec_has_dev_redirect(s: &str) -> (b: bool)
    ensures
        b == arg_has_dev_redirect(s@),
{
    let n = s.unicode_len();
    let mut i: usize = 0;
    while i < n
        invariant
            n == s@.len(),
            i <= n,
            forall|k: int| 0 <= k < i ==> !dev_redirect_from(s@, k),
        decreases n - i,
    {
        if dev_redirect_here(s, i) {
            return true;
        }
        i += 1;
    }
    proof {
        assert forall|k: int| !dev_redirect_from(s@, k) by {
            if k < 0 || k >= s@.len() {
                assert(forall|j: int| !dev_redirect_at(s@, k, j));
            }
        }
    }
    false
}

fn exec_arg_dangerous(s: &str) -> (b: bool)
    ensures
        b == arg_dangerous(s@),
{
    if exec_has_shell_meta(s) {
        return true;
    }
    proof {
        reveal_strlit("../");
        assert("../"@ =~= traversal_pat());
    }
    let traversal = exec_contains(s, "../");
    if traversal {
        return true;
    }
    let n = s.unicode_len();
    if n > 0 && s.get_char(0) == '-' && !exec_flag_shaped(s) {
        return true;
    }
    exec_has_dev_redirect(s)
}

fn exec_port_arg_ok(arg: &str) -> (b: bool)
    ensures
        b == port_arg_ok(arg@),
{
    proof {
        reveal_strlit("--port=");
        assert("--port="@ =~= port_eq_prefix());
    }
    let n = arg.unicode_len();
    let is_spec_arg = (n >= 7 && exec_matches_at(arg, "--port=", 0)) || (n >= 2 && arg.get_char(0)
        == '-' && arg.get_char(1) == 'p');
    if !is_spec_arg {
        return true;
    }
    let suffix = exec_after_last(arg, '=');
    match exec_parse_u16(suffix.as_str()) {
        Some(p) => p >= 1024,
        None => false,
    }
}

/// Validates process arguments fail-closed: the first argument matching the
/// deny table (or carrying a bad port value) rejects the whole list, and a
/// cleared list is returned with every value unchanged.
pub fn validate_command_args(args: &Vec<String>) -> (r: Result<Vec<String>, ArgError>)
    ensures
        r is Ok <==> args_all_cleared(args@),
        r matches Ok(v) ==> (v@.len() == args@.len() && (forall|i: int|
            0 <= i < args@.len() ==> v@[i]@ == args@[i]@)),
        r matches Err(e) ==> (exists|i: int|
            0 <= i < args@.len() && #[trigger] arg_error_for(e, args@[i]@) && (forall|j: int|
                0 <= j < i ==> arg_cleared(args@[j]@))),
{
    let mut validated: Vec<String> = Vec::new();
    let mut idx: usize = 0;
    while idx < args.len()
        invariant
            idx <= args@.len(),
            validated@.len() == idx,
            forall|j: int| 0 <= j < idx ==> arg_cleared(args@[j]@),
            forall|j: int| 0 <= j < idx ==> validated@[j]@ == args@[j]@,
        decreases args@.len() - idx,
    {
        let arg = &args[idx];
        if exec_arg_dangerous(arg.as_str()) {
            let e = ArgError::DangerousArgument { arg: arg.clone() };
            proof {
                assert(arg_error_for(e, args@[idx as int]@));
            }
            return Err(e);
        }
        if !exec_port_arg_ok(arg.as_str()) {
            let e = ArgError::InvalidPort { arg: arg.clone() };
            proof {
                assert(arg_error_for(e, args@[idx as int]@));
            }
            return Err(e);
        }
        validated.push(arg.clone());
        idx += 1;
    }
    Ok(validated)
}

// --- the deny table for inbound messages ---

pub open spec fn script_pat() -> Seq<char> {
    seq!['<', 's', 'c', 'r', 'i', 'p', 't']
}

pub open spec fn jsuri_pat() -> Seq<char> {
    seq!['j', 'a', 'v', 'a', 's', 'c', 'r', 'i', 'p', 't', ':']
}

/// `on`, one or more word characters, optional whitespace, then `=`: an
/// inline event-handler attribute.
pub open spec fn handler_attr_at(s: Seq<char>, i: int, j: int, k: int) -> bool {
    0 <= i && i + 3 <= j <= k < s.len() && s[i] == 'o' && s[i + 1] == 'n' && (forall|m: int|
        i + 2 <= m < j ==> is_word_char(s[m])) && (forall|m: int|
        j <= m < k ==> is_space_char(s[m])) && s[k] == '='
}

pub open spec fn handler_attr_from(s: Seq<char>, i: int) -> bool {
    exists|j: int, k: int| handler_attr_at(s, i, j, k)
}

pub open spec fn has_handler_attr(s: Seq<char>) -> bool {
    exists|i: int| handler_attr_from(s, i)
}

/// `eval`, optional whitespace, then `(`: a dynamic-evaluation call.
pub open spec fn eval_call_at(s: Seq<char>, i: int, k: int) -> bool {
    0 <= i && i + 4 <= k < s.len() && s[i] == 'e' && s[i + 1] == 'v' && s[i + 2] == 'a' && s[i + 3]
        == 'l' && (forall|m: int| i + 4 <= m < k ==> is_space_char(s[m])) && s[k] == '('
}

pub open spec fn eval_call_from(s: Seq<char>, i: int) -> bool {
    exists|k: int| eval_call_at(s, i, k)
}

pub open spec fn has_eval_call(s: Seq<char>) -> bool {
    exists|i: int| eval_call_from(s, i)
}

/// `new`, whitespace, then `Function`: dynamic code construction.
pub open spec fn new_function_at(s: Seq<char>, i: int, j: int) -> bool {
    0 <= i && i + 4 <= j && j + 8 <= s.len() && s[i] == 'n' && s[i + 1] == 'e' && s[i + 2] == 'w'
        && (forall|m: int| i + 3 <= m < j ==> is_space_char(s[m])) && s[j] == 'F' && s[j + 1] == 'u'
        && s[j + 2] == 'n' && s[j + 3] == 'c' && s[j + 4] == 't' && s[j + 5] == 'i' && s[j + 6]
        == 'o' && s[j + 7] == 'n'
}

pub open spec fn new_function_from(s: Seq<char>, i: int) -> bool {
    exists|j: int| new_function_at(s, i, j)
}

pub open spec fn has_new_function(s: Seq<char>) -> bool {
    exists|i: int| new_function_from(s, i)
}

/// The deny table for one inbound message.
pub open spec fn msg_malicious(s: Seq<char>) -> bool {
    contains_seq(s, script_pat()) || contains_seq(s, jsuri_pat()) || has_handler_attr(s)
        || has_eval_call(s) || has_new_function(s)
}

/// The size cap for one inbound message, in characters.
pub const MAX_MESSAGE_CHARS: usize = 10000;

fn handler_attr_here(s: &str, i: usize) -> (b: bool)
    requires
        i < s@.len(),
    ensures
        b == handler_attr_from(s@, i as int),
{
    let n = s.unicode_len();
    if n - i < 4 {
        return false;
    }
    if s.get_char(i) != 'o' || s.get_char(i + 1) != 'n' {
        return false;
    }
    let j = scan_word_end(s, i + 2);
    if j == i + 2 {
        return false;
    }
    let k = scan_space_end(s, j);
    if k < n && s.get_char(k) == '=' {
        proof {
            assert(handler_attr_at(s@, i as int, j as int, k as int));
        }
        true
    } else {
        proof {
            assert forall|j2: int, k2: int| !handler_attr_at(s@, i as int, j2, k2) by {
                if handler_attr_at(s@, i as int, j2, k2) {
                    lemma_word_run_end(s@, i + 2, j as int, j2);
                    lemma_space_run_end(s@, j as int, k as int, k2);
                }
            }
        }
        false
    }
}

fn eval_call_here(s: &str, i: usize) -> (b: bool)
    requires
        i < s@.len(),
    ensures
        b == eval_call_from(s@, i as int),
{
    let n = s.unicode_len();
    if n - i < 5 {
        return false;
    }
    if s.get_char(i) != 'e' || s.get_char(i + 1) != 'v' || s.get_char(i + 2) != 'a' || s.get_char(
        i + 3,
    ) != 'l' {
        return false;
    }
    let k = scan_space_end(s, i + 4);
    if k < n && s.get_char(k) == '(' {
        proof {
            assert(eval_call_at(s@, i as int, k as int));
        }
        true
    } else {
        proof {
            assert forall|k2: int| !eval_call_at(s@, i as int, k2) by {
                if eval_call_at(s@, i as int, k2) {
                    lemma_space_run_end(s@, i + 4, k as int, k2);
                }
            }
        }
        false
    }
}

fn new_function_here(s: &str, i: usize) -> (b: bool)
    requires
        i < s@.len(),
    ensures
        b == new_function_from(s@, i as int),
{
    let n = s.unicode_len();
    if n - i < 12 {
        return false;
    }
    if s.get_char(i) != 'n' || s.get_char(i + 1) != 'e' || s.get_char(i + 2) != 'w' {
        return false;
    }
    let j = scan_space_end(s, i + 3);
    if j == i + 3 {
        return false;
    }
    if n - j >= 8 && s.get_char(j) == 'F' && s.get_char(j + 1) == 'u' && s.get_char(j + 2) == 'n'
        && s.get_char(j + 3) == 'c' && s.get_char(j + 4) == 't' && s.get_char(j + 5) == 'i'
        && s.get_char(j + 6) == 'o' && s.get_char(j + 7) == 'n' {
        proof {
            assert(new_function_at(s@, i as int, j as int));
        }
        true
    } else {
        proof {
            assert forall|j2: int| !new_function_at(s@, i as int, j2) by {
                if new_function_at(s@, i as int, j2) {
                    lemma_space_run_end(s@, i + 3, j as int, j2);
                }
            }
        }
        false
    }
}

fn exec_msg_malicious(s: &str) -> (b: bool)
    ensures
        b == msg_malicious(s@),
{
    proof {
        reveal_strlit("<script");
        assert("<script"@ =~= script_pat());
    }
    let script = exec_contains(s, "<script");
    if script {
        return true;
    }
    proof {
        reveal_strlit("javascript:");
        assert("javascript:"@ =~= jsuri_pat());
    }
    let jsuri = exec_contains(s, "javascript:");
    if jsuri {
        return true;
    }
    let n = s.unicode_len();
    let mut i: usize = 0;
    while i < n
        invariant
            n == s@.len(),
            i <= n,
            forall|k: int| 0 <= k < i ==> !handler_attr_from(s@, k),
            forall|k: int| 0 <= k < i ==> !eval_call_from(s@, k),
            forall|k: int| 0 <= k < i ==> !new_function_from(s@, k),
        decreases n - i,
    {
        if handler_attr_here(s, i) {
            return true;
        }
        if eval_call_here(s, i) {
            return true;
        }
        if new_function_here(s, i) {
            return true;
        }
        i += 1;
    }
    proof {
        assert forall|k: int| !handler_attr_from(s@, k) by {
            if k < 0 || k >= s@.len() {
                assert(forall|j: int, k2: int| !handler_attr_at(s@, k, j, k2));
            }
        }
        assert forall|k: int| !eval_call_from(s@, k) by {
            if k < 0 || k >= s@.len() {
                assert(forall|k2: int| !eval_call_at(s@, k, k2));
            }
        }
        assert forall|k: int| !new_function_from(s@, k) by {
            if k < 0 || k >= s@.len() {
                assert(forall|j: int| !new_function_at(s@, k, j));
            }
        }
    }
    false
}

/// Validates one inbound message: the size cap first, then the deny table
/// for markup/script injection. A cleared message is returned unchanged.
pub fn validate_ipc_message(message: &str) -> (r: Result<String, MsgError>)
    ensures
        message@.len() > MAX_MESSAGE_CHARS ==> r == Err::<String, MsgError>(
            MsgError::MessageTooLarge,
        ),
        message@.len() <= MAX_MESSAGE_CHARS && msg_malicious(message@) ==> r == Err::<
            String,
            MsgError,
        >(MsgError::MaliciousContent),
        message@.len() <= MAX_MESSAGE_CHARS && !msg_malicious(message@) ==> (r matches Ok(m)
            && m@ == message@),
{
    let n = message.unicode_len();
    if n > MAX_MESSAGE_CHARS {
        return Err(MsgError::MessageTooLarge);
    }
    if exec_msg_malicious(message) {
        return Err(MsgError::MaliciousContent);
    }
    Ok(message.to_owned())
}

} // verus!
