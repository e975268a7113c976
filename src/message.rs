//! Commit messages: a template with `{timestamp}`, `{hostname}` and `{scope}`
//! replaced literally, with no escaping; other placeholders stay as written.
use vstd::prelude::*;
use crate::text::{replace, replaced};

verus! {

/// What `{scope}` stands for: `all` when untracked files are staged too.
pub open spec fn scope_of(include_untracked: bool) -> Seq<char> {
    if include_untracked {
        "all"@
    } else {
        "tracked"@
    }
}

/// The template with the three placeholders replaced, in this order.
pub open spec fn rendered(
    template: Seq<char>,
    timestamp: Seq<char>,
    host: Seq<char>,
    include_untracked: bool,
) -> Seq<char> {
    replaced(
        replaced(replaced(template, "{timestamp}"@, timestamp), "{hostname}"@, host),
        "{scope}"@,
        scope_of(include_untracked),
    )
}

/// Some time stamp and some host name make `message` out of the template.
pub open spec fn is_commit_message(template: Seq<char>, include_untracked: bool, message: Seq<char>) -> bool {
    exists|timestamp: Seq<char>, host: Seq<char>|
        message == rendered(template, timestamp, host, include_untracked)
}

/// The template filled with the given time stamp and host name.
pub fn render_commit_message(
    template: &str,
    timestamp: &str,
    host: &str,
    include_untracked: bool,
) -> (r: String)
    ensures
        r@ == rendered(template@, timestamp@, host@, include_untracked),
{
    proof {
        reveal_strlit("{timestamp}");
        reveal_strlit("{hostname}");
        reveal_strlit("{scope}");
    }
    let a = replace(template, "{timestamp}", timestamp);
    let b = replace(a.as_str(), "{hostname}", host);
    let scope = if include_untracked {
        "all"
    } else {
        "tracked"
    };
    replace(b.as_str(), "{scope}", scope)
}

/// Relies on chrono's `Local::now` and `DateTime::format`: the local wall-clock
/// time as `YYYY-MM-DD HH:MM:SS ±ZZZZ`. It changes with the clock, so nothing
/// is stated of it.
#[verifier::external_body]
fn local_timestamp() -> (r: String) {
    chrono::Local::now().format("%Y-%m-%d %H:%M:%S %z").to_string()
}

/// Relies on `hostname::get`: the machine's host name, or an empty string when
/// it cannot be had. It depends on the machine, so nothing is stated of it.
#[verifier::external_body]
fn host_name() -> (r: String) {
    hostname::get().unwrap_or_default().to_string_lossy().to_string()
}

/// The template filled with the current time and this machine's host name.
pub fn generate_commit_message(template: &str, include_untracked: bool) -> (r: String)
    ensures
        is_commit_message(template@, include_untracked, r@),
{
    let timestamp = local_timestamp();
    let host = host_name();
    let r = render_commit_message(template, timestamp.as_str(), host.as_str(), include_untracked);
    assert(r@ == rendered(template@, timestamp@, host@, include_untracked));
    r
}

} // verus!
