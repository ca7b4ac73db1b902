//! The Node.js server process: its command line, where `node` is found, and
//! which process ids to signal when the server has to go.

use vstd::prelude::*;
use crate::paths::{join_path, join_spec};
use crate::text::{
    chars_of, decimal_spec, lines_spec, parse_u32_range, parse_u32_spec, push_decimal,
    split_white_space, trim_bounds, trim_spec, words_spec, line_scan,
};
use crate::BootstrapError;

verus! {

/// The port that the 9Router server listens on unless told otherwise.
pub const DEFAULT_PORT: u16 = 20128;

/// What a process manager holds, as plain values.
pub struct ProcessManagerView {
    pub node_path: Seq<char>,
    pub node_args: Seq<char>,
    pub server_path: Seq<char>,
    pub server_args: Seq<Seq<char>>,
}

/// How to start the Node.js server: the `node` executable, the options for
/// `node` (one string, split at white space), the server script and its arguments.
#[derive(Clone)]
pub struct ProcessManager {
    pub node_path: String,
    pub node_args: String,
    pub server_path: String,
    pub server_args: Vec<String>,
}

/// The plain values of a list of strings.
pub open spec fn strings_view(v: Seq<String>) -> Seq<Seq<char>> {
    v.map_values(|s: String| s@)
}

impl View for ProcessManager {
    type V = ProcessManagerView;

    open spec fn view(&self) -> ProcessManagerView {
        ProcessManagerView {
            node_path: self.node_path@,
            node_args: self.node_args@,
            server_path: self.server_path@,
            server_args: strings_view(self.server_args@),
        }
    }
}

/// The arguments handed to `node`: the words of the node options, then the
/// server script, then the server's own arguments.
pub open spec fn spawn_args_spec(m: ProcessManagerView) -> Seq<Seq<char>> {
    words_spec(m.node_args) + seq![m.server_path] + m.server_args
}

/// The command line of `node` is laid out as: the words of the node options
/// first, then the server script, then the server's own arguments, whatever
/// these are (none among them included).
pub proof fn spawn_args_layout(m: ProcessManagerView)
    ensures
        ({
            let args = spawn_args_spec(m);
            let w = words_spec(m.node_args).len();
            &&& args.len() == w + 1 + m.server_args.len()
            &&& args.take(w as int) == words_spec(m.node_args)
            &&& args[w as int] == m.server_path
            &&& args.skip(w + 1int) == m.server_args
        }),
{
    let args = spawn_args_spec(m);
    let w = words_spec(m.node_args).len();
    assert(args.take(w as int) =~= words_spec(m.node_args));
    assert(args.skip(w + 1int) =~= m.server_args);
}

impl ProcessManager {
    pub fn new(
        node_path: String,
        node_args: String,
        server_path: String,
        server_args: Vec<String>,
    ) -> (r: Self)
        ensures
            r@ == (ProcessManagerView {
                node_path: node_path@,
                node_args: node_args@,
                server_path: server_path@,
                server_args: strings_view(server_args@),
            }),
    {
        Self { node_path, node_args, server_path, server_args }
    }

    /// The arguments that `node` is started with.
    pub fn spawn_args(&self) -> (r: Vec<String>)
        ensures
            strings_view(r@) == spawn_args_spec(self@),
            strings_view(r@).take(words_spec(self@.node_args).len() as int) == words_spec(
                self@.node_args,
            ),
            strings_view(r@)[words_spec(self@.node_args).len() as int] == self@.server_path,
            strings_view(r@).skip(words_spec(self@.node_args).len() + 1int) == self@.server_args,
    {
        proof {
            spawn_args_layout(self@);
        }
        let mut args = split_white_space(self.node_args.as_str());
        let ghost words = words_spec(self.node_args@);
        assert(strings_view(args@) =~= words);
        let ghost prev = args@;
        args.push(self.server_path.clone());
        assert(strings_view(args@) =~= strings_view(prev).push(self.server_path@));
        let n = self.server_args.len();
        let mut i: usize = 0;
        while i < n
            invariant
                n == self.server_args@.len(),
                i <= n,
                strings_view(args@) =~= words + seq![self.server_path@] + strings_view(
                    self.server_args@,
                ).take(i as int),
            decreases n - i,
        {
            let ghost prev = args@;
            args.push(self.server_args[i].clone());
            assert(strings_view(args@) =~= strings_view(prev).push(self.server_args@[i as int]@));
            assert(strings_view(self.server_args@).take(i + 1) =~= strings_view(
                self.server_args@,
            ).take(i as int).push(self.server_args@[i as int]@));
            i = i + 1;
        }
        assert(strings_view(self.server_args@).take(n as int) =~= strings_view(
            self.server_args@,
        ));
        args
    }
}


/// Whether `s` ends with `suffix`.
pub open spec fn ends_with(s: Seq<char>, suffix: Seq<char>) -> bool {
    suffix.len() <= s.len() && s.subrange(s.len() - suffix.len(), s.len() as int) == suffix
}

/// An absolute path written out in full: it starts at `/`, does not end in
/// `/`, has no empty component and no component that starts with `.`, and
/// holds none of the glob metacharacters `*`, `?`, `[`, `]`.
pub open spec fn plain_absolute_path(p: Seq<char>) -> bool {
    &&& p.len() > 1
    &&& p[0] == '/'
    &&& p.last() != '/'
    &&& forall|i: int|
        0 <= i < p.len() ==> {
            let c = #[trigger] p[i];
            c != '*' && c != '?' && c != '[' && c != ']'
        }
    &&& forall|i: int|
        0 <= i < p.len() - 1 && #[trigger] p[i] == '/' ==> p[i + 1] != '/' && p[i + 1] != '.'
}

/// Looks `name` up on `PATH` with `which::which`.
///
/// For a name without `/`, `which` tries `dir.join(name)` for each directory
/// of `PATH` and gives the first that is an executable file, so a found path
/// ends with `name`. Whether one is found depends on the environment and the
/// file system, which is left unsaid.
#[verifier::external_body]
fn which_path(name: &str) -> (r: Option<String>)
    ensures
        r matches Some(p) ==> ((name@.len() > 0 && !name@.contains('/')) ==> ends_with(
            p@,
            name@,
        )),
{
    which::which(name).ok().map(|p| p.to_string_lossy().to_string())
}

/// The paths that `glob::glob` yields for `pattern`, each entry `None` where
/// the walk reported an error; `None` as a whole for an invalid pattern.
///
/// For a pattern with no metacharacters, `glob` only checks that the path
/// named exists and yields that very path, so every entry equals the
/// pattern. Whether the path exists is left unsaid.
#[verifier::external_body]
fn glob_paths(pattern: &str) -> (r: Option<Vec<Option<String>>>)
    ensures
        plain_absolute_path(pattern@) ==> (r matches Some(entries) && forall|k: int|
            0 <= k < entries@.len() ==> (#[trigger] entries@[k] matches Some(p) ==> p@
                == pattern@)),
{
    match glob::glob(pattern) {
        Ok(paths) => Some(paths.map(|e| e.ok().map(|p| p.to_string_lossy().to_string())).collect()),
        Err(_) => None,
    }
}

/// The first entry of `entries` that holds a path, if any.
pub open spec fn first_found_spec(entries: Seq<Option<String>>) -> Option<Seq<char>>
    decreases entries.len(),
{
    if entries.len() == 0 {
        None
    } else {
        match entries[0] {
            Some(p) => Some(p@),
            None => first_found_spec(entries.drop_first()),
        }
    }
}

proof fn lemma_first_found_agrees(entries: Seq<Option<String>>, target: Seq<char>)
    requires
        forall|k: int|
            0 <= k < entries.len() ==> (#[trigger] entries[k] matches Some(p) ==> p@ == target),
    ensures
        first_found_spec(entries) matches Some(v) ==> v == target,
    decreases entries.len(),
{
    if entries.len() > 0 {
        assert forall|k: int| 0 <= k < entries.drop_first().len() implies (
        #[trigger] entries.drop_first()[k] matches Some(p) ==> p@ == target) by {
            assert(entries.drop_first()[k] == entries[k + 1]);
        }
        lemma_first_found_agrees(entries.drop_first(), target);
    }
}

/// The first path among the entries that a glob walk yielded, skipping the
/// entries where the walk reported an error.
pub fn first_found(entries: &Vec<Option<String>>) -> (r: Option<String>)
    ensures
        match first_found_spec(entries@) {
            Some(v) => r matches Some(p) && p@ == v,
            None => r is None,
        },
{
    let n = entries.len();
    let mut i: usize = 0;
    assert(entries@.skip(0) =~= entries@);
    while i < n
        invariant
            n == entries@.len(),
            i <= n,
            first_found_spec(entries@.skip(i as int)) == first_found_spec(entries@),
        decreases n - i,
    {
        assert(entries@.skip(i as int).drop_first() =~= entries@.skip(i + 1));
        assert(entries@.skip(i as int)[0] == entries@[i as int]);
        match &entries[i] {
            Some(p) => {
                return Some(p.clone());
            },
            None => {},
        }
        i = i + 1;
    }
    assert(entries@.skip(n as int) =~= Seq::<Option<String>>::empty());
    None
}

/// The first path that `glob` yields for `pattern`, skipping errors.
fn first_glob_match(pattern: &str) -> (r: Option<String>)
    ensures
        plain_absolute_path(pattern@) ==> (r matches Some(p) ==> p@ == pattern@),
{
    match glob_paths(pattern) {
        None => None,
        Some(entries) => {
            proof {
                if plain_absolute_path(pattern@) {
                    lemma_first_found_agrees(entries@, pattern@);
                }
            }
            first_found(&entries)
        },
    }
}

/// The places where `node` is looked for when it is not on `PATH`, in order.
pub open spec fn node_fallback_paths() -> Seq<Seq<char>> {
    seq!["/usr/local/bin/node"@, "/usr/bin/node"@, "/opt/nodejs/bin/node"@]
}

proof fn lemma_fallback_path(p: Seq<char>)
    requires
        node_fallback_paths().contains(p),
    ensures
        plain_absolute_path(p),
        ends_with(p, "node"@),
{
    reveal_strlit("node");
    reveal_strlit("/usr/local/bin/node");
    reveal_strlit("/usr/bin/node");
    reveal_strlit("/opt/nodejs/bin/node");
    let k = choose|k: int| 0 <= k < 3 && node_fallback_paths()[k] == p;
    assert(p.subrange(p.len() - 4, p.len() as int) =~= "node"@);
}

/// A list of texts, each entry taken by its plain value.
pub open spec fn texts_view(v: Seq<Option<String>>) -> Seq<Option<Seq<char>>> {
    v.map_values(|o: Option<String>| text_option(o))
}

/// An optional text, taken by its plain value.
pub open spec fn text_option(o: Option<String>) -> Option<Seq<char>> {
    match o {
        Some(p) => Some(p@),
        None => None,
    }
}

/// An outcome that carries a text, taken by its plain value.
pub open spec fn text_result(r: Result<String, BootstrapError>) -> Result<Seq<char>, BootstrapError> {
    match r {
        Ok(p) => Ok(p@),
        Err(e) => Err(e),
    }
}

/// Which `node` to use: the one found on `PATH` if any, else the first
/// install location (in the order tried) that held one, else none.
pub open spec fn node_choice_spec(
    on_path: Option<Seq<char>>,
    at_fallbacks: Seq<Option<String>>,
) -> Result<Seq<char>, BootstrapError> {
    match on_path {
        Some(p) => Ok(p),
        None => match first_found_spec(at_fallbacks) {
            Some(p) => Ok(p),
            None => Err(BootstrapError::NodeNotFound),
        },
    }
}

/// What the searches of `find_node` may have found: a path on `PATH` ends
/// with `node`; the install locations are looked at, in order, only when
/// `PATH` held none, until one holds `node` (all of them if none does); and
/// what one of them holds is that very location.
pub open spec fn node_search_outcome(
    on_path: Option<Seq<char>>,
    at_fallbacks: Seq<Option<String>>,
) -> bool {
    &&& (on_path matches Some(p) ==> ends_with(p, "node"@))
    &&& (on_path is Some ==> at_fallbacks.len() == 0)
    &&& at_fallbacks.len() <= 3
    &&& (on_path is None && first_found_spec(at_fallbacks) is None ==> at_fallbacks.len() == 3)
    &&& forall|k: int|
        0 <= k < at_fallbacks.len() ==> (#[trigger] at_fallbacks[k] matches Some(q) ==> q@
            == node_fallback_paths()[k])
    &&& forall|k: int| 0 <= k < at_fallbacks.len() - 1 ==> #[trigger] at_fallbacks[k] is None
}

/// The places where `node` is looked for when it is not on `PATH`, in order.
pub fn node_fallback_candidates() -> (r: Vec<String>)
    ensures
        strings_view(r@) == node_fallback_paths(),
{
    let r = vec![
        String::from_str("/usr/local/bin/node"),
        String::from_str("/usr/bin/node"),
        String::from_str("/opt/nodejs/bin/node"),
    ];
    assert(strings_view(r@) =~= node_fallback_paths());
    r
}

/// Decides which `node` to use from what the `PATH` search found and what
/// the install locations held, in the order they were looked at.
pub fn choose_node(on_path: Option<String>, at_fallbacks: &Vec<Option<String>>) -> (r: Result<
    String,
    BootstrapError,
>)
    ensures
        text_result(r) == node_choice_spec(text_option(on_path), at_fallbacks@),
{
    match on_path {
        Some(p) => Ok(p),
        None => match first_found(at_fallbacks) {
            Some(p) => Ok(p),
            None => Err(BootstrapError::NodeNotFound),
        },
    }
}

proof fn lemma_first_found_is_an_entry(entries: Seq<Option<String>>)
    ensures
        first_found_spec(entries) matches Some(v) ==> exists|k: int|
            0 <= k < entries.len() && (#[trigger] entries[k] matches Some(p) && p@ == v),
    decreases entries.len(),
{
    if entries.len() > 0 {
        lemma_first_found_is_an_entry(entries.drop_first());
        if entries[0] is None {
            match first_found_spec(entries) {
                Some(v) => {
                    let k = choose|k: int|
                        0 <= k < entries.drop_first().len() && (#[trigger] entries.drop_first()[k] matches Some(
                            p,
                        ) && p@ == v);
                    assert(entries[k + 1] == entries.drop_first()[k]);
                },
                None => {},
            }
        }
    }
}

proof fn lemma_first_found_hits(entries: Seq<Option<String>>, k: int)
    requires
        0 <= k < entries.len(),
        entries[k] is Some,
    ensures
        first_found_spec(entries) is Some,
    decreases entries.len(),
{
    if k > 0 && entries[0] is None {
        assert(entries.drop_first()[k - 1] == entries[k]);
        lemma_first_found_hits(entries.drop_first(), k - 1);
    }
}

proof fn lemma_first_found_of_misses(entries: Seq<Option<String>>)
    requires
        forall|k: int| 0 <= k < entries.len() ==> #[trigger] entries[k] is None,
    ensures
        first_found_spec(entries) is None,
    decreases entries.len(),
{
    if entries.len() > 0 {
        assert forall|k: int| 0 <= k < entries.drop_first().len() implies #[trigger] entries.drop_first()[k] is None by {
            assert(entries.drop_first()[k] == entries[k + 1]);
        }
        lemma_first_found_of_misses(entries.drop_first());
    }
}

proof fn lemma_first_found_least(entries: Seq<Option<String>>)
    ensures
        first_found_spec(entries) matches Some(v) ==> exists|k: int|
            0 <= k < entries.len() && (#[trigger] entries[k] matches Some(p) && p@ == v) && forall|j: int|
                0 <= j < k ==> #[trigger] entries[j] is None,
        first_found_spec(entries) is None ==> forall|k: int|
            0 <= k < entries.len() ==> #[trigger] entries[k] is None,
    decreases entries.len(),
{
    if entries.len() > 0 {
        let rest = entries.drop_first();
        lemma_first_found_least(rest);
        match entries[0] {
            Some(p) => {
                assert(entries[0] matches Some(q) && q@ == p@);
            },
            None => {
                match first_found_spec(rest) {
                    Some(v) => {
                        let k = choose|k: int|
                            0 <= k < rest.len() && (#[trigger] rest[k] matches Some(p) && p@ == v)
                                && forall|j: int| 0 <= j < k ==> #[trigger] rest[j] is None;
                        assert(entries[k + 1] == rest[k]);
                        assert forall|j: int| 0 <= j < k + 1 implies #[trigger] entries[j] is None by {
                            if j > 0 {
                                assert(entries[j] == rest[j - 1]);
                            }
                        }
                    },
                    None => {
                        assert forall|k: int| 0 <= k < entries.len() implies #[trigger] entries[k] is None by {
                            if k > 0 {
                                assert(entries[k] == rest[k - 1]);
                            }
                        }
                    },
                }
            },
        }
    }
}

/// What the `PATH` lookup finds is the `node` used, whatever the install
/// locations hold.
pub proof fn path_find_wins(on_path: Seq<char>, at_fallbacks: Seq<Option<String>>)
    ensures
        node_choice_spec(Some(on_path), at_fallbacks) == Ok::<Seq<char>, BootstrapError>(on_path),
{
}

/// When `PATH` gives nothing, the `node` used is what the first install
/// location (in the order tried) that held one held, every earlier one having
/// held none; and `node` is not found only when none of them held one.
pub proof fn install_locations_in_order(at_fallbacks: Seq<Option<String>>)
    ensures
        node_choice_spec(None, at_fallbacks) matches Ok(q) ==> exists|k: int|
            0 <= k < at_fallbacks.len() && (#[trigger] at_fallbacks[k] matches Some(p) && p@ == q)
                && forall|j: int| 0 <= j < k ==> #[trigger] at_fallbacks[j] is None,
        node_choice_spec(None, at_fallbacks) is Err <==> forall|k: int|
            0 <= k < at_fallbacks.len() ==> #[trigger] at_fallbacks[k] is None,
{
    lemma_first_found_least(at_fallbacks);
    if forall|k: int| 0 <= k < at_fallbacks.len() ==> #[trigger] at_fallbacks[k] is None {
        lemma_first_found_of_misses(at_fallbacks);
    }
}

impl ProcessManager {
    /// Finds the `node` executable: first on `PATH`, then at the usual install
    /// locations, in order, stopping at the first that holds one.
    pub fn find_node() -> (r: Result<String, BootstrapError>)
        ensures
            r matches Ok(p) ==> ends_with(p@, "node"@),
            r matches Err(e) ==> e == BootstrapError::NodeNotFound,
            exists|on_path: Option<Seq<char>>, at_fallbacks: Seq<Option<String>>|
                node_search_outcome(on_path, at_fallbacks) && text_result(r) == node_choice_spec(
                    on_path,
                    at_fallbacks,
                ),
    {
        proof {
            reveal_strlit("node");
            assert(!("node"@).contains('/')) by {
                assert forall|i: int| 0 <= i < ("node"@).len() implies ("node"@)[i] != '/' by {}
            }
        }
        let on_path = which_path("node");
        let ghost looked_up = text_option(on_path);
        let r = Self::node_after_path_lookup(on_path);
        proof {
            if looked_up is Some {
                assert(node_search_outcome(looked_up, Seq::<Option<String>>::empty()));
                assert(node_choice_spec(looked_up, Seq::<Option<String>>::empty()) == text_result(r));
            }
        }
        r
    }

    /// Finishes the search for `node` once `PATH` was looked up: what `PATH`
    /// gave is the answer; only when it gave nothing are the usual install
    /// locations tried, in order, stopping at the first that holds one.
    pub fn node_after_path_lookup(on_path: Option<String>) -> (r: Result<String, BootstrapError>)
        ensures
            on_path matches Some(p) ==> text_result(r) == Ok::<Seq<char>, BootstrapError>(p@),
            on_path is None ==> (r matches Ok(p) ==> ends_with(p@, "node"@)),
            r matches Err(e) ==> e == BootstrapError::NodeNotFound,
            on_path is None ==> exists|at_fallbacks: Seq<Option<String>>|
                node_search_outcome(None, at_fallbacks) && text_result(r) == node_choice_spec(
                    None,
                    at_fallbacks,
                ),
    {
        let mut found: Vec<Option<String>> = Vec::new();
        if on_path.is_none() {
            let candidates = node_fallback_candidates();
            let n = candidates.len();
            assert(strings_view(candidates@).len() == candidates@.len());
            assert(node_fallback_paths().len() == 3);
            let mut i: usize = 0;
            let mut hit = false;
            while i < n && !hit
                invariant
                    n == candidates@.len(),
                    n == 3,
                    strings_view(candidates@) == node_fallback_paths(),
                    i <= n,
                    found@.len() == i,
                    hit ==> i > 0 && found@[i - 1] is Some,
                    forall|k: int|
                        0 <= k < found@.len() ==> (#[trigger] found@[k] matches Some(q) ==> q@
                            == node_fallback_paths()[k]),
                    forall|k: int| 0 <= k < found@.len() - (if hit { 1int } else { 0int }) ==> #[trigger] found@[k] is None,
                decreases n - i,
            {
                let pattern = candidates[i].as_str();
                assert(strings_view(candidates@)[i as int] == candidates@[i as int]@);
                proof {
                    assert(node_fallback_paths().contains(pattern@));
                    lemma_fallback_path(pattern@);
                }
                let m = first_glob_match(pattern);
                hit = m.is_some();
                found.push(m);
                i = i + 1;
            }
            proof {
                if !hit {
                    lemma_first_found_of_misses(found@);
                } else {
                    lemma_first_found_hits(found@, i - 1);
                }
            }
        }
        let r = choose_node(on_path, &found);
        proof {
            if on_path is None {
                match first_found_spec(found@) {
                    Some(v) => {
                        lemma_first_found_is_an_entry(found@);
                        let k = choose|k: int|
                            0 <= k < found@.len() && (#[trigger] found@[k] matches Some(p) && p@ == v);
                        assert(node_fallback_paths().contains(node_fallback_paths()[k]));
                        lemma_fallback_path(node_fallback_paths()[k]);
                    },
                    None => {},
                }
            }
            if on_path is None {
                assert(node_search_outcome(None, found@));
            }
        }
        r
    }
}

/// The process ids named by the lines of `lsof -t` output: each line with
/// white space trimmed off, kept where it reads as a `u32`, in order.
pub open spec fn pids_from_lines(lines: Seq<Seq<char>>) -> Seq<u32>
    decreases lines.len(),
{
    if lines.len() == 0 {
        seq![]
    } else {
        let before = pids_from_lines(lines.drop_last());
        match parse_u32_spec(trim_spec(lines.last())) {
            Some(pid) => before.push(pid),
            None => before,
        }
    }
}

/// Every line of `lsof -t` output that reads as a `u32` once trimmed adds
/// that process id after those of the lines before it; any other line adds
/// nothing.
pub proof fn each_numeric_line_is_a_pid(lines: Seq<Seq<char>>, line: Seq<char>)
    ensures
        pids_from_lines(lines.push(line)) == match parse_u32_spec(trim_spec(line)) {
            Some(p) => pids_from_lines(lines).push(p),
            None => pids_from_lines(lines),
        },
{
    assert(lines.push(line).drop_last() =~= lines);
}

/// Where the 9Router server writes its process id, under the home directory `home`.
pub open spec fn pid_file_path_spec(home: Seq<char>) -> Seq<char> {
    join_spec(join_spec(home, ".9router"@), "server.pid"@)
}

/// The arguments that ask `lsof` for the ids of the processes listening on TCP `port`.
pub open spec fn lsof_args_spec(port: u16) -> Seq<Seq<char>> {
    seq!["-sTCP:LISTEN"@, "-ti"@, "tcp:"@ + decimal_spec(port as nat)]
}

/// The text that `String::from_utf8_lossy` makes of `bytes`.
pub uninterp spec fn utf8_lossy(bytes: Seq<u8>) -> Seq<char>;

/// Decodes `bytes` as UTF-8 with `String::from_utf8_lossy`, which puts
/// U+FFFD in place of every invalid sequence; its result depends on the bytes alone.
#[verifier::external_body]
fn decode_lossy(bytes: &[u8]) -> (r: String)
    ensures
        r@ == utf8_lossy(bytes@),
{
    String::from_utf8_lossy(bytes).to_string()
}

/// The process id held by a pid file whose contents are `contents`: the
/// text with white space trimmed off, read as a `u32`.
pub fn pid_from_file_contents(contents: &str) -> (r: Result<u32, BootstrapError>)
    ensures
        match parse_u32_spec(trim_spec(contents@)) {
            Some(pid) => r == Ok::<u32, BootstrapError>(pid),
            None => r == Err::<u32, BootstrapError>(BootstrapError::InvalidPidFile),
        },
{
    let chars = chars_of(contents);
    assert(chars@.subrange(0, chars@.len() as int) =~= contents@);
    let (a, b) = trim_bounds(&chars, 0, chars.len());
    match parse_u32_range(&chars, a, b) {
        Some(pid) => Ok(pid),
        None => Err(BootstrapError::InvalidPidFile),
    }
}

/// The process ids in the text that `lsof -t` printed, one per line.
pub fn pids_in_lsof_text(text: &str) -> (r: Vec<u32>)
    ensures
        r@ == pids_from_lines(lines_spec(text@)),
{
    let chars = chars_of(text);
    let n = chars.len();
    let mut pids: Vec<u32> = Vec::new();
    let mut start: usize = 0;
    let mut i: usize = 0;
    while i < n
        invariant
            n == chars@.len(),
            chars@ == text@,
            start <= i <= n,
            line_scan(chars@.take(i as int)).1 == chars@.subrange(start as int, i as int),
            pids@ == pids_from_lines(line_scan(chars@.take(i as int)).0),
        decreases n - i,
    {
        let ghost before = chars@.take(i as int);
        assert(chars@.take(i + 1).drop_last() =~= before);
        assert(chars@.take(i + 1).last() == chars@[i as int]);
        if chars[i] == '\n' {
            let ghost done = line_scan(before).0;
            let ghost cur = line_scan(before).1;
            assert(done.push(cur).drop_last() =~= done);
            let (a, b) = trim_bounds(&chars, start, i);
            match parse_u32_range(&chars, a, b) {
                Some(pid) => {
                    pids.push(pid);
                },
                None => {},
            }
            start = i + 1;
        } else {
            assert(chars@.subrange(start as int, i + 1) =~= chars@.subrange(
                start as int,
                i as int,
            ).push(chars@[i as int]));
        }
        i = i + 1;
    }
    assert(chars@.take(n as int) =~= chars@);
    let ghost done = line_scan(chars@).0;
    let ghost cur = line_scan(chars@).1;
    assert(done.push(cur).drop_last() =~= done);
    let (a, b) = trim_bounds(&chars, start, n);
    match parse_u32_range(&chars, a, b) {
        Some(pid) => {
            pids.push(pid);
        },
        None => {},
    }
    pids
}

/// The ids of the processes that `lsof -t` reported, from the bytes it wrote to standard output.
pub fn listening_pids(stdout: &[u8]) -> (r: Vec<u32>)
    ensures
        r@ == pids_from_lines(lines_spec(utf8_lossy(stdout@))),
{
    let text = decode_lossy(stdout);
    pids_in_lsof_text(text.as_str())
}

/// The arguments for `lsof` that list the processes listening on TCP `port`.
pub fn lsof_args(port: u16) -> (r: Vec<String>)
    ensures
        strings_view(r@) == lsof_args_spec(port),
{
    let mut target = String::from_str("tcp:");
    push_decimal(&mut target, port as u64);
    let r = vec![String::from_str("-sTCP:LISTEN"), String::from_str("-ti"), target];
    assert(strings_view(r@) =~= lsof_args_spec(port));
    r
}

/// The process id to signal for `pid`, if signalling it is safe: `0` would
/// reach the whole process group and ids above `i32::MAX` would turn negative
/// (`-1` reaching every process), so only ids from `1` to `i32::MAX` are kept.
pub fn signal_target(pid: u32) -> (r: Option<i32>)
    ensures
        r == if 0 < pid && pid <= 0x7FFF_FFFF {
            Some(pid as i32)
        } else {
            None::<i32>
        },
{
    if 0 < pid && pid <= 0x7FFF_FFFF {
        Some(pid as i32)
    } else {
        None
    }
}

/// The pid file of the 9Router server under the home directory `home`.
pub fn pid_file_path(home: &str) -> (r: String)
    ensures
        r@ == pid_file_path_spec(home@),
{
    let dir = join_path(home, ".9router");
    join_path(dir.as_str(), "server.pid")
}


/// A process manager's outcome, taken by its plain values.
pub open spec fn manager_result(r: Result<ProcessManager, BootstrapError>) -> Result<
    ProcessManagerView,
    BootstrapError,
> {
    match r {
        Ok(m) => Ok(m@),
        Err(e) => Err(e),
    }
}

/// What `start` settles before its first launch, from the `node` it has (or
/// the error that left it without one) and whether the server script exists:
/// no `node` ends it with that error; otherwise a missing script ends it with
/// `ServerScriptMissing`; otherwise it goes on with this command line.
pub open spec fn launch_plan_spec(
    node: Result<Seq<char>, BootstrapError>,
    script_exists: bool,
    server_path: Seq<char>,
    server_args: Seq<Seq<char>>,
    node_args: Seq<char>,
) -> Result<ProcessManagerView, BootstrapError> {
    match node {
        Err(e) => Err(e),
        Ok(n) => if script_exists {
            Ok(ProcessManagerView { node_path: n, node_args, server_path, server_args })
        } else {
            Err(BootstrapError::ServerScriptMissing)
        },
    }
}

/// What `start` may have learnt before its first launch: the given `node`
/// if there is one, else an outcome of the `node` search; and, once it has
/// a `node`, whether the script exists.
pub open spec fn start_inputs_outcome(
    node_path: Option<Seq<char>>,
    node: Result<Seq<char>, BootstrapError>,
    script_exists: bool,
) -> bool {
    &&& match node_path {
        Some(p) => node == Ok::<Seq<char>, BootstrapError>(p),
        None => exists|on_path: Option<Seq<char>>, at_fallbacks: Seq<Option<String>>|
            node_search_outcome(on_path, at_fallbacks) && node == node_choice_spec(
                on_path,
                at_fallbacks,
            ),
    }
    &&& (node is Err ==> !script_exists)
}

impl ProcessManager {
    /// Settles the start from the `node` at hand and whether the server
    /// script exists.
    pub fn launch_plan(
        node: Result<String, BootstrapError>,
        script_exists: bool,
        server_path: String,
        server_args: Vec<String>,
        node_args: String,
    ) -> (r: Result<ProcessManager, BootstrapError>)
        ensures
            manager_result(r) == launch_plan_spec(
                text_result(node),
                script_exists,
                server_path@,
                strings_view(server_args@),
                node_args@,
            ),
    {
        match node {
            Err(e) => Err(e),
            Ok(n) => {
                if script_exists {
                    Ok(ProcessManager::new(n, node_args, server_path, server_args))
                } else {
                    Err(BootstrapError::ServerScriptMissing)
                }
            },
        }
    }

    /// What `start` does before its first launch: take the given `node`, or
    /// find one; then check that the server script exists.
    pub fn for_start(
        server_path: String,
        server_args: Vec<String>,
        node_path: Option<String>,
        node_args: String,
    ) -> (r: Result<ProcessManager, BootstrapError>)
        ensures
            exists|node: Result<Seq<char>, BootstrapError>, script_exists: bool|
                start_inputs_outcome(text_option(node_path), node, script_exists) && manager_result(r)
                    == launch_plan_spec(
                    node,
                    script_exists,
                    server_path@,
                    strings_view(server_args@),
                    node_args@,
                ),
            r matches Ok(m) ==> {
                &&& m@.server_path == server_path@
                &&& m@.server_args == strings_view(server_args@)
                &&& m@.node_args == node_args@
                &&& match node_path {
                    Some(p) => m@.node_path == p@,
                    None => ends_with(m@.node_path, "node"@),
                }
            },
            r matches Err(e) ==> ((e == BootstrapError::NodeNotFound && node_path is None) || e
                == BootstrapError::ServerScriptMissing),
    {
        let ghost given = text_option(node_path);
        let node = match node_path {
            Some(p) => Ok(p),
            None => Self::find_node(),
        };
        let script_exists = match &node {
            Ok(_) => crate::paths::path_exists(server_path.as_str()),
            Err(_) => false,
        };
        proof {
            assert(start_inputs_outcome(given, text_result(node), script_exists));
        }
        Self::launch_plan(node, script_exists, server_path, server_args, node_args)
    }
}

} // verus!
