//! Expansion of requested script names into commands.
//!
//! A project manifest maps script names to command strings. A request
//! names one script exactly, or ends in `*` and matches every script name
//! with the prefix before the `*`. Each match contributes one generated
//! command, `<runner> run <name>`, appended ahead of the literal commands.
//! Requesting a non-existent exact name is a setup error.

use vstd::prelude::*;
use vstd::string::{StrSliceExecFns, StringExecFns};

use crate::text::seq_views;

verus! {

/// The command generated for one script name: `<run_with> run <name>`.
pub open spec fn run_command(run_with: Seq<char>, name: Seq<char>) -> Seq<char> {
    run_with + " run "@ + name
}

/// Whether a request is a wildcard request: it ends in `*`.
pub open spec fn is_wildcard(request: Seq<char>) -> bool {
    request.len() > 0 && request.last() == '*'
}

/// The script names that start with `prefix`, in table order.
pub open spec fn wildcard_matches(names: Seq<Seq<char>>, prefix: Seq<char>) -> Seq<Seq<char>>
    decreases names.len(),
{
    if names.len() == 0 {
        Seq::empty()
    } else {
        let rest = wildcard_matches(names.drop_last(), prefix);
        if prefix.is_prefix_of(names.last()) {
            rest.push(names.last())
        } else {
            rest
        }
    }
}

/// The commands one request expands to: one per matching name for a
/// wildcard request, exactly one for an exact request.
pub open spec fn expansion_of(
    names: Seq<Seq<char>>,
    request: Seq<char>,
    run_with: Seq<char>,
) -> Seq<Seq<char>> {
    if is_wildcard(request) {
        wildcard_matches(names, request.drop_last()).map_values(
            |name: Seq<char>| run_command(run_with, name),
        )
    } else {
        seq![run_command(run_with, request)]
    }
}

/// Whether a request can be expanded: a wildcard request always can
/// (possibly to nothing); an exact request must name an existing script.
pub open spec fn request_known(names: Seq<Seq<char>>, request: Seq<char>) -> bool {
    is_wildcard(request) || names.contains(request)
}

/// The commands that the first `k` requests expand to, in request order.
pub open spec fn expansions_upto(
    names: Seq<Seq<char>>,
    requests: Seq<Seq<char>>,
    run_with: Seq<char>,
    k: int,
) -> Seq<Seq<char>>
    decreases k,
{
    if k <= 0 {
        Seq::empty()
    } else {
        expansions_upto(names, requests, run_with, k - 1) + expansion_of(
            names,
            requests[k - 1],
            run_with,
        )
    }
}

/// The position of the first request that cannot be expanded, or `None`
/// when every request can.
pub open spec fn first_unknown(names: Seq<Seq<char>>, requests: Seq<Seq<char>>) -> Option<int>
    decreases requests.len(),
{
    if requests.len() == 0 {
        None
    } else if !request_known(names, requests.first()) {
        Some(0)
    } else {
        match first_unknown(names, requests.drop_first()) {
            None => None,
            Some(k) => Some(k + 1),
        }
    }
}

/// A request at `k` that cannot be expanded, after `k` requests that can,
/// is the first unknown one.
pub proof fn lemma_first_unknown_at(names: Seq<Seq<char>>, requests: Seq<Seq<char>>, k: int)
    requires
        0 <= k < requests.len(),
        !request_known(names, requests[k]),
        forall|i: int| 0 <= i < k ==> request_known(names, #[trigger] requests[i]),
    ensures
        first_unknown(names, requests) == Some(k),
    decreases k,
{
    if k == 0 {
    } else {
        assert(request_known(names, requests[0]));
        assert forall|i: int| 0 <= i < k - 1 implies request_known(
            names,
            #[trigger] requests.drop_first()[i],
        ) by {
            assert(requests[i + 1] == requests.drop_first()[i]);
            assert(request_known(names, requests[i + 1]));
        }
        assert(!request_known(names, requests.drop_first()[k - 1]));
        lemma_first_unknown_at(names, requests.drop_first(), k - 1);
    }
}

/// When every request can be expanded, no unknown one is found.
pub proof fn lemma_all_known(names: Seq<Seq<char>>, requests: Seq<Seq<char>>)
    requires
        forall|i: int| 0 <= i < requests.len() ==> request_known(names, #[trigger] requests[i]),
    ensures
        first_unknown(names, requests) is None,
    decreases requests.len(),
{
    if requests.len() > 0 {
        assert(request_known(names, requests[0]));
        assert forall|i: int| 0 <= i < requests.drop_first().len() implies request_known(
            names,
            #[trigger] requests.drop_first()[i],
        ) by {
            assert(requests[i + 1] == requests.drop_first()[i]);
        }
        lemma_all_known(names, requests.drop_first());
    }
}

/// A requested script name that does not exist in the manifest.
#[derive(Debug)]
pub enum ScriptError {
    /// The exact request named a script the manifest does not have.
    UnknownScript(String),
}

impl ScriptError {
    /// The diagnostic text for this error.
    pub fn message(&self) -> (r: String)
        ensures
            *self matches ScriptError::UnknownScript(name) ==> r@ == "Script \""@ + name@
                + "\" does not exist in package.json"@,
    {
        match self {
            ScriptError::UnknownScript(name) => {
                let mut out = String::from_str("Script \"");
                out.append(name.as_str());
                out.append("\" does not exist in package.json");
                proof {
                    assert(out@ =~= "Script \""@ + name@ + "\" does not exist in package.json"@);
                }
                out
            },
        }
    }
}

/// Whether `prefix` is a prefix of `s`.
fn str_starts_with(s: &str, prefix: &str) -> (r: bool)
    ensures
        r == prefix@.is_prefix_of(s@),
{
    let n = prefix.unicode_len();
    let m = s.unicode_len();
    if n > m {
        return false;
    }
    let mut i: usize = 0;
    while i < n
        invariant
            i <= n,
            n == prefix@.len(),
            m == s@.len(),
            n <= m,
            forall|j: int| 0 <= j < i ==> s@[j] == prefix@[j],
        decreases n - i,
    {
        if s.get_char(i) != prefix.get_char(i) {
            proof {
                assert(s@.subrange(0, prefix@.len() as int)[i as int] != prefix@[i as int]);
            }
            return false;
        }
        i = i + 1;
    }
    proof {
        assert(prefix@ =~= s@.subrange(0, prefix@.len() as int));
    }
    true
}

/// Whether `target` is one of `names`.
fn contains_name(names: &Vec<String>, target: &String) -> (r: bool)
    ensures
        r == seq_views(names@).contains(target@),
{
    let mut t: usize = 0;
    while t < names.len()
        invariant
            t <= names@.len(),
            forall|j: int| 0 <= j < t ==> names@[j]@ != target@,
        decreases names@.len() - t,
    {
        if names[t].eq(target) {
            proof {
                assert(seq_views(names@)[t as int] == target@);
            }
            return true;
        }
        t = t + 1;
    }
    proof {
        assert forall|i: int| 0 <= i < names@.len() implies seq_views(names@)[i] != target@ by {
            assert(seq_views(names@)[i] == names@[i]@);
        }
        assert(!seq_views(names@).contains(target@));
    }
    false
}

/// Builds the generated command for one script name.
fn build_run_command(run_with: &String, name: &str) -> (r: String)
    ensures
        r@ == run_command(run_with@, name@),
{
    let mut out = run_with.clone();
    out.append(" run ");
    out.append(name);
    proof {
        assert(out@ =~= run_command(run_with@, name@));
    }
    out
}

/// Expands the requested script names `npm` against the manifest's script
/// names and appends one generated command per match to `commands`, in
/// request order (and, within a wildcard request, in table order).
///
/// Expansion stops at the first exact request that names no script: the
/// commands generated by the earlier requests remain appended, and the
/// error names the offending request.
pub fn collect_npm_commands(
    commands: &mut Vec<String>,
    npm: &Vec<String>,
    script_names: &Vec<String>,
    run_with: &String,
) -> (r: Result<(), ScriptError>)
    ensures
        match first_unknown(seq_views(script_names@), seq_views(npm@)) {
            None => r is Ok && seq_views(final(commands)@) == seq_views(old(commands)@)
                + expansions_upto(
                seq_views(script_names@),
                seq_views(npm@),
                run_with@,
                npm@.len() as int,
            ),
            Some(k) => (r matches Err(ScriptError::UnknownScript(name)) && name@ == seq_views(
                npm@,
            )[k]) && seq_views(final(commands)@) == seq_views(old(commands)@) + expansions_upto(
                seq_views(script_names@),
                seq_views(npm@),
                run_with@,
                k,
            ),
        },
{
    let ghost names_v = seq_views(script_names@);
    let ghost requests_v = seq_views(npm@);
    let ghost initial_v = seq_views(old(commands)@);

    let mut j: usize = 0;
    while j < npm.len()
        invariant
            j <= npm@.len(),
            names_v == seq_views(script_names@),
            requests_v == seq_views(npm@),
            initial_v == seq_views(old(commands)@),
            forall|i: int| 0 <= i < j ==> request_known(names_v, #[trigger] requests_v[i]),
            seq_views(commands@) == initial_v + expansions_upto(
                names_v,
                requests_v,
                run_with@,
                j as int,
            ),
        decreases npm@.len() - j,
    {
        let request = &npm[j];
        let request_len = request.as_str().unicode_len();
        let is_wild = request_len > 0 && request.as_str().get_char(request_len - 1) == '*';
        proof {
            assert(is_wild == is_wildcard(requests_v[j as int]));
        }
        if is_wild {
            let prefix = request.as_str().substring_char(0, request_len - 1);
            proof {
                assert(prefix@ =~= requests_v[j as int].drop_last());
            }
            let mut t: usize = 0;
            while t < script_names.len()
                invariant
                    t <= script_names@.len(),
                    names_v == seq_views(script_names@),
                    requests_v == seq_views(npm@),
                    initial_v == seq_views(old(commands)@),
                    j < npm@.len(),
                    prefix@ == requests_v[j as int].drop_last(),
                    is_wildcard(requests_v[j as int]),
                    seq_views(commands@) == initial_v + expansions_upto(
                        names_v,
                        requests_v,
                        run_with@,
                        j as int,
                    ) + wildcard_matches(names_v.take(t as int), prefix@).map_values(
                        |name: Seq<char>| run_command(run_with@, name),
                    ),
                decreases script_names@.len() - t,
            {
                proof {
                    assert(names_v.take(t as int + 1).drop_last() =~= names_v.take(t as int));
                    assert(names_v.take(t as int + 1).last() == names_v[t as int]);
                }
                if str_starts_with(script_names[t].as_str(), prefix) {
                    let generated = build_run_command(run_with, script_names[t].as_str());
                    let ghost pre = commands@;
                    let ghost generated_v = generated@;
                    commands.push(generated);
                    proof {
                        crate::text::lemma_seq_views_push(pre, commands@[pre.len() as int]);
                        assert(seq_views(commands@) == seq_views(pre).push(generated_v));
                        assert(wildcard_matches(names_v.take(t as int + 1), prefix@).map_values(
                            |name: Seq<char>| run_command(run_with@, name),
                        ) =~= wildcard_matches(names_v.take(t as int), prefix@).map_values(
                            |name: Seq<char>| run_command(run_with@, name),
                        ).push(run_command(run_with@, names_v[t as int])));
                        assert(seq_views(commands@) =~= initial_v + expansions_upto(
                            names_v,
                            requests_v,
                            run_with@,
                            j as int,
                        ) + wildcard_matches(names_v.take(t as int + 1), prefix@).map_values(
                            |name: Seq<char>| run_command(run_with@, name),
                        ));
                    }
                }
                t = t + 1;
            }
            proof {
                assert(names_v.take(names_v.len() as int) =~= names_v);
                assert(expansion_of(names_v, requests_v[j as int], run_with@)
                    == wildcard_matches(names_v, prefix@).map_values(
                    |name: Seq<char>| run_command(run_with@, name),
                ));
                assert(expansions_upto(names_v, requests_v, run_with@, j as int + 1)
                    =~= expansions_upto(names_v, requests_v, run_with@, j as int) + expansion_of(
                    names_v,
                    requests_v[j as int],
                    run_with@,
                ));
            }
        } else {
            if !contains_name(script_names, request) {
                proof {
                    lemma_first_unknown_at(names_v, requests_v, j as int);
                }
                return Err(ScriptError::UnknownScript(request.clone()));
            }
            let generated = build_run_command(run_with, request.as_str());
            let ghost pre = commands@;
            let ghost generated_v = generated@;
            commands.push(generated);
            proof {
                crate::text::lemma_seq_views_push(pre, commands@[pre.len() as int]);
                assert(seq_views(commands@) == seq_views(pre).push(generated_v));
                assert(expansion_of(names_v, requests_v[j as int], run_with@) =~= seq![
                    run_command(run_with@, requests_v[j as int]),
                ]);
                assert(seq_views(commands@) =~= initial_v + expansions_upto(
                    names_v,
                    requests_v,
                    run_with@,
                    j as int + 1,
                ));
            }
        }
        j = j + 1;
    }
    proof {
        lemma_all_known(names_v, requests_v);
    }
    Ok(())
}

} // verus!
