//! Where the peer may listen: the ten socket names `discord-ipc-0` to
//! `discord-ipc-9` inside a base directory, in ascending order.
//!
//! Nothing here looks at the file system. Whether an endpoint exists is found
//! out by trying to connect to it.

use vstd::prelude::*;
use vstd::string::*;

verus! {

/// Number of endpoints that a sweep probes.
pub const CANDIDATE_COUNT: usize = 10;

/// The decimal digit for `n`.
pub open spec fn digit(n: nat) -> char
    recommends
        n < 10,
{
    (0x30 + n) as char
}

/// The file name of the endpoint with index `n`.
pub open spec fn spec_socket_name(n: nat) -> Seq<char>
    recommends
        n < CANDIDATE_COUNT,
{
    "discord-ipc-"@ + seq![digit(n)]
}

/// The path of the entry `name` inside the directory `base`. An empty base
/// stands for the current directory, and a base that ends in a separator gets
/// no second one.
pub open spec fn spec_in_directory(base: Seq<char>, name: Seq<char>) -> Seq<char> {
    if base.len() == 0 || base.last() == '/' {
        base + name
    } else {
        base + seq!['/'] + name
    }
}

/// The path of the endpoint with index `n` under `base`.
pub open spec fn spec_candidate_path(base: Seq<char>, n: nat) -> Seq<char>
    recommends
        n < CANDIDATE_COUNT,
{
    spec_in_directory(base, spec_socket_name(n))
}

/// `list` holds the ten endpoint paths under `base`, in ascending order of
/// their index.
pub open spec fn is_candidate_list(base: Seq<char>, list: Seq<Seq<char>>) -> bool {
    &&& list.len() == CANDIDATE_COUNT
    &&& forall|i: int| 0 <= i < CANDIDATE_COUNT ==> list[i] == spec_candidate_path(base, i as nat)
}

fn digit_str(n: usize) -> (s: &'static str)
    requires
        n < 10,
    ensures
        s@ == seq![digit(n as nat)],
{
    proof {
        reveal_strlit("0");
        reveal_strlit("1");
        reveal_strlit("2");
        reveal_strlit("3");
        reveal_strlit("4");
        reveal_strlit("5");
        reveal_strlit("6");
        reveal_strlit("7");
        reveal_strlit("8");
        reveal_strlit("9");
    }
    let s = match n {
        0 => "0",
        1 => "1",
        2 => "2",
        3 => "3",
        4 => "4",
        5 => "5",
        6 => "6",
        7 => "7",
        8 => "8",
        _ => "9",
    };
    assert(s@ =~= seq![digit(n as nat)]);
    s
}

/// The file name of the endpoint with index `n`.
pub fn socket_name(n: usize) -> (name: String)
    requires
        n < CANDIDATE_COUNT,
    ensures
        name@ == spec_socket_name(n as nat),
{
    let mut name = String::from_str("discord-ipc-");
    name.append(digit_str(n));
    name
}

/// The path of the entry `name` inside the directory `base_dir`.
fn in_directory(base_dir: &str, name: &str) -> (path: String)
    ensures
        path@ == spec_in_directory(base_dir@, name@),
{
    let mut path = String::from_str(base_dir);
    let len = base_dir.unicode_len();
    if len > 0 && base_dir.get_char(len - 1) != '/' {
        proof {
            reveal_strlit("/");
        }
        path.append("/");
        assert("/"@ =~= seq!['/']);
    }
    path.append(name);
    path
}

/// The path of the endpoint with index `n` under `base_dir`.
pub fn candidate_path(base_dir: &str, n: usize) -> (path: String)
    requires
        n < CANDIDATE_COUNT,
    ensures
        path@ == spec_candidate_path(base_dir@, n as nat),
{
    let name = socket_name(n);
    in_directory(base_dir, name.as_str())
}

/// The endpoints to probe under `base_dir`, in the order in which a sweep
/// probes them. Every call builds the list anew.
pub fn candidates(base_dir: &str) -> (paths: Vec<String>)
    ensures
        is_candidate_list(base_dir@, paths.deep_view()),
{
    let mut paths: Vec<String> = Vec::new();
    let mut n: usize = 0;
    while n < CANDIDATE_COUNT
        invariant
            n <= CANDIDATE_COUNT,
            paths@.len() == n,
            forall|i: int| 0 <= i < n ==> (#[trigger] paths@[i])@ == spec_candidate_path(base_dir@, i as nat),
        decreases CANDIDATE_COUNT - n,
    {
        let path = candidate_path(base_dir, n);
        paths.push(path);
        n = n + 1;
    }
    assert(paths.deep_view().len() == paths@.len());
    assert forall|i: int| 0 <= i < CANDIDATE_COUNT implies paths.deep_view()[i]
        == spec_candidate_path(base_dir@, i as nat) by {
        assert(paths.deep_view()[i] == paths@[i]@);
    }
    paths
}

/// Discovery is deterministic: two enumerations under one base directory
/// agree in every position.
pub proof fn lemma_candidates_deterministic(
    base: Seq<char>,
    first: Seq<Seq<char>>,
    second: Seq<Seq<char>>,
)
    requires
        is_candidate_list(base, first),
        is_candidate_list(base, second),
    ensures
        first == second,
{
    assert(first =~= second);
}

} // verus!
