//! Configuration and session helpers: blank-field handling, fields locked by the
//! command line, and the merged list of enabled worldbooks.

use vstd::prelude::*;
use crate::text::{chars_of, is_blank, trim, string_views};

verus! {

/// The text of an optional field: `None` when it is blank (empty or whitespace only),
/// else the text unchanged.
pub fn non_empty(s: &str) -> (r: Option<String>)
    ensures
        r is None <==> trim(s@).len() == 0,
        r matches Some(t) ==> t@ == s@,
{
    let v = chars_of(s);
    if is_blank(v.as_slice()) {
        None
    } else {
        Some(s.to_owned())
    }
}

// ---------------------------------------------------------------------
// Command-line overrides and the config fields they lock
// ---------------------------------------------------------------------

/// How requests to the completions server authenticate.
#[derive(Debug, Clone, Copy, PartialEq, Eq, Structural)]
pub enum AuthKind {
    /// No authentication (`None` in the config file).
    NoAuth,
    Basic,
    Bearer,
    Header,
    Query,
}

/// Which sampling parameters the command line sets.
#[derive(Debug, Clone, Copy, Default, PartialEq, Eq, Structural)]
pub struct SamplingOverridden {
    pub temperature: bool,
    pub top_k: bool,
    pub top_p: bool,
    pub min_p: bool,
    pub repeat_last_n: bool,
    pub repeat_penalty: bool,
    pub max_tokens: bool,
}

/// Settings given on the command line, which take precedence over the config file.
#[derive(Debug, Clone)]
pub struct CliOverrides {
    pub api_url: Option<String>,
    pub template: Option<String>,
    pub tls_skip_verify: bool,
    pub sampling: SamplingOverridden,
    pub system_prompt: Option<String>,
    pub persona: Option<String>,
    pub no_summarize: bool,
    pub auth_type: Option<AuthKind>,
    pub auth_basic_username: Option<String>,
    pub auth_basic_password: Option<String>,
    pub auth_bearer_token: Option<String>,
    pub auth_header_name: Option<String>,
    pub auth_header_value: Option<String>,
    pub auth_query_name: Option<String>,
    pub auth_query_value: Option<String>,
}

impl CliOverrides {
    /// Whether any part of the authentication is set on the command line.
    pub open spec fn auth_overridden(self) -> bool {
        ||| self.auth_type is Some
        ||| self.auth_basic_username is Some
        ||| self.auth_basic_password is Some
        ||| self.auth_bearer_token is Some
        ||| self.auth_header_name is Some
        ||| self.auth_header_value is Some
        ||| self.auth_query_name is Some
        ||| self.auth_query_value is Some
    }
}

/// `seq![i]` when `b` holds, else the empty sequence.
pub open spec fn if_set(b: bool, i: usize) -> Seq<usize> {
    if b {
        seq![i]
    } else {
        Seq::empty()
    }
}

/// Indices of the fields of the "General" config tab that the command line locks:
/// the API URL (0), authentication (1), the template (3) and TLS verification (5).
pub open spec fn locked_general(o: CliOverrides) -> Seq<usize> {
    if_set(o.api_url is Some, 0) + if_set(o.auth_overridden(), 1) + if_set(o.template is Some, 3)
        + if_set(o.tls_skip_verify, 5)
}

/// Indices of the fields of the "Sampling" config tab that the command line locks,
/// in the tab's order.
pub open spec fn locked_sampling(s: SamplingOverridden) -> Seq<usize> {
    if_set(s.temperature, 0) + if_set(s.top_k, 1) + if_set(s.top_p, 2) + if_set(s.min_p, 3)
        + if_set(s.repeat_last_n, 4) + if_set(s.repeat_penalty, 5) + if_set(s.max_tokens, 6)
}

fn push_if(v: &mut Vec<usize>, b: bool, i: usize)
    ensures
        final(v)@ == old(v)@ + if_set(b, i),
{
    if b {
        v.push(i);
    }
    proof {
        if !b {
            assert(old(v)@ + if_set(b, i) =~= old(v)@);
        }
    }
}

/// For each of the five config tabs, the indices of its fields that the command line
/// locks (shown read-only in the editor).
pub fn config_locked_fields_by_section(overrides: &CliOverrides) -> (r: Vec<Vec<usize>>)
    ensures
        r@.len() == 5,
        r@[0]@ == locked_general(*overrides),
        r@[1]@ == locked_sampling(overrides.sampling),
        r@[2]@.len() == 0,
        r@[3]@.len() == 0,
        r@[4]@.len() == 0,
{
    let mut general: Vec<usize> = Vec::new();
    let mut sampling: Vec<usize> = Vec::new();
    let auth_overridden = overrides.auth_type.is_some() || overrides.auth_basic_username.is_some()
        || overrides.auth_basic_password.is_some() || overrides.auth_bearer_token.is_some()
        || overrides.auth_header_name.is_some() || overrides.auth_header_value.is_some()
        || overrides.auth_query_name.is_some() || overrides.auth_query_value.is_some();
    push_if(&mut general, overrides.api_url.is_some(), 0);
    push_if(&mut general, auth_overridden, 1);
    push_if(&mut general, overrides.template.is_some(), 3);
    push_if(&mut general, overrides.tls_skip_verify, 5);
    let s = overrides.sampling;
    push_if(&mut sampling, s.temperature, 0);
    push_if(&mut sampling, s.top_k, 1);
    push_if(&mut sampling, s.top_p, 2);
    push_if(&mut sampling, s.min_p, 3);
    push_if(&mut sampling, s.repeat_last_n, 4);
    push_if(&mut sampling, s.repeat_penalty, 5);
    push_if(&mut sampling, s.max_tokens, 6);
    assert(general@ =~= locked_general(*overrides));
    assert(sampling@ =~= locked_sampling(overrides.sampling));
    vec![general, sampling, Vec::new(), Vec::new(), Vec::new()]
}

// ---------------------------------------------------------------------
// Enabled worldbooks
// ---------------------------------------------------------------------

/// `acc` followed by each name of `names`, in order, that is not already listed.
pub open spec fn append_new(acc: Seq<Seq<char>>, names: Seq<Seq<char>>) -> Seq<Seq<char>>
    decreases names.len(),
{
    if names.len() == 0 {
        acc
    } else {
        let prev = append_new(acc, names.drop_last());
        if prev.contains(names.last()) {
            prev
        } else {
            prev.push(names.last())
        }
    }
}

/// Whether no element occurs twice.
pub open spec fn distinct(s: Seq<Seq<char>>) -> bool {
    forall|i: int, j: int| 0 <= i < j < s.len() ==> s[i] != s[j]
}

/// The worldbooks active in a session: those the config enables, in order, then those
/// the session enables that the config does not already list.
pub fn enabled_worldbook_names(session_worldbooks: &[String], config_worldbooks: &[String]) -> (r:
    Vec<String>)
    ensures
        string_views(r@) == append_new(string_views(config_worldbooks@), string_views(
            session_worldbooks@,
        )),
{
    let mut enabled: Vec<String> = Vec::new();
    let mut k: usize = 0;
    while k < config_worldbooks.len()
        invariant
            k <= config_worldbooks.len(),
            enabled@.len() == k,
            string_views(enabled@) == string_views(config_worldbooks@).take(k as int),
        decreases config_worldbooks.len() - k,
    {
        let ghost before = enabled@;
        enabled.push(config_worldbooks[k].clone());
        assert forall|t: int| 0 <= t < k + 1 implies #[trigger] string_views(enabled@)[t]
            == string_views(config_worldbooks@)[t] by {
            if t < k {
                assert(enabled@[t] == before[t]);
                assert(string_views(before)[t] == string_views(config_worldbooks@).take(k as int)[t]);
            }
        }
        assert(string_views(enabled@) =~= string_views(config_worldbooks@).take(k + 1));
        k = k + 1;
    }
    assert(string_views(config_worldbooks@).take(k as int) =~= string_views(config_worldbooks@));
    let ghost base = string_views(config_worldbooks@);
    let ghost names = string_views(session_worldbooks@);
    let mut i: usize = 0;
    while i < session_worldbooks.len()
        invariant
            i <= session_worldbooks.len(),
            base == string_views(config_worldbooks@),
            names == string_views(session_worldbooks@),
            string_views(enabled@) == append_new(base, names.take(i as int)),
        decreases session_worldbooks.len() - i,
    {
        let name = &session_worldbooks[i];
        let mut found = false;
        let mut j: usize = 0;
        while j < enabled.len()
            invariant
                j <= enabled.len(),
                found == string_views(enabled@).take(j as int).contains(name@),
            decreases enabled.len() - j,
        {
            if enabled[j] == *name {
                found = true;
                assert(string_views(enabled@).take(j + 1)[j as int] == name@);
            } else {
                assert(string_views(enabled@).take(j + 1) =~= string_views(enabled@).take(
                    j as int,
                ).push(enabled@[j as int]@));
            }
            if found {
                assert(string_views(enabled@).take(j + 1).contains(name@)) by {
                    if !(enabled[j as int]@ == name@) {
                        let w = choose|w: int|
                            0 <= w < j && string_views(enabled@).take(j as int)[w] == name@;
                        assert(string_views(enabled@).take(j + 1)[w] == name@);
                    }
                }
            }
            j = j + 1;
        }
        assert(string_views(enabled@).take(j as int) =~= string_views(enabled@));
        assert(names.take(i + 1).drop_last() =~= names.take(i as int));
        assert(names.take(i + 1).last() == name@);
        if !found {
            enabled.push(name.clone());
            assert(string_views(enabled@) =~= append_new(base, names.take(i as int)).push(name@));
        }
        i = i + 1;
    }
    assert(names.take(i as int) =~= names);
    enabled
}


/// Merging keeps the first list as a prefix, in order.
proof fn lemma_append_new_prefix(acc: Seq<Seq<char>>, names: Seq<Seq<char>>)
    ensures
        append_new(acc, names).len() >= acc.len(),
        append_new(acc, names).take(acc.len() as int) == acc,
    decreases names.len(),
{
    if names.len() > 0 {
        lemma_append_new_prefix(acc, names.drop_last());
        let prev = append_new(acc, names.drop_last());
        if !prev.contains(names.last()) {
            assert(prev.push(names.last()).take(acc.len() as int) =~= prev.take(acc.len() as int));
        }
    } else {
        assert(acc.take(acc.len() as int) =~= acc);
    }
}

/// A name is in the merged list exactly when it is in either list.
proof fn lemma_append_new_members(acc: Seq<Seq<char>>, names: Seq<Seq<char>>, x: Seq<char>)
    ensures
        append_new(acc, names).contains(x) <==> (acc.contains(x) || names.contains(x)),
    decreases names.len(),
{
    if names.len() > 0 {
        let init = names.drop_last();
        lemma_append_new_members(acc, init, x);
        let prev = append_new(acc, init);
        if names.contains(x) && !init.contains(x) {
            assert(x == names.last()) by {
                let w = choose|w: int| 0 <= w < names.len() && names[w] == x;
                if w < names.len() - 1 {
                    assert(init[w] == x);
                }
            }
        }
        if init.contains(x) {
            let w = choose|w: int| 0 <= w < init.len() && init[w] == x;
            assert(names[w] == x);
        }
        if !prev.contains(names.last()) && prev.push(names.last()).contains(x) && x != names.last() {
            let w = choose|w: int| 0 <= w < prev.len() + 1 && prev.push(names.last())[w] == x;
            assert(prev[w] == x);
        }
        if prev.contains(x) && !prev.contains(names.last()) {
            let w = choose|w: int| 0 <= w < prev.len() && prev[w] == x;
            assert(prev.push(names.last())[w] == x);
        }
        if x == names.last() && !prev.contains(names.last()) {
            assert(prev.push(names.last())[prev.len() as int] == x);
        }
    }
}

/// Merging adds no duplicate.
proof fn lemma_append_new_distinct(acc: Seq<Seq<char>>, names: Seq<Seq<char>>)
    requires
        distinct(acc),
    ensures
        distinct(append_new(acc, names)),
    decreases names.len(),
{
    if names.len() > 0 {
        lemma_append_new_distinct(acc, names.drop_last());
        let prev = append_new(acc, names.drop_last());
        if !prev.contains(names.last()) {
            let next = prev.push(names.last());
            assert forall|i: int, j: int| 0 <= i < j < next.len() implies next[i] != next[j] by {
                if j == prev.len() {
                    assert(prev[i] == next[i]);
                }
            }
        }
    }
}

/// The worldbook list of a session keeps the config's list first and in order, holds
/// exactly the names of either list, and lists no name twice when the config does not.
pub proof fn law_enabled_worldbooks(config: Seq<Seq<char>>, session: Seq<Seq<char>>, x: Seq<char>)
    ensures
        append_new(config, session).take(config.len() as int) == config,
        append_new(config, session).contains(x) <==> (config.contains(x) || session.contains(x)),
        distinct(config) ==> distinct(append_new(config, session)),
{
    lemma_append_new_prefix(config, session);
    lemma_append_new_members(config, session, x);
    if distinct(config) {
        lemma_append_new_distinct(config, session);
    }
}


/// The endpoint summaries are requested from: the URL given on the command line, else
/// the one set for summarization, else the main API URL.
pub fn summarize_api_url(
    cli_api_url: Option<String>,
    summarization_api_url: Option<String>,
    api_url: &str,
) -> (r: String)
    ensures
        r@ == (match cli_api_url {
            Some(u) => u@,
            None => match summarization_api_url {
                Some(u) => u@,
                None => api_url@,
            },
        }),
{
    match cli_api_url {
        Some(u) => u,
        None => match summarization_api_url {
            Some(u) => u,
            None => String::from_str(api_url),
        },
    }
}

} // verus!
