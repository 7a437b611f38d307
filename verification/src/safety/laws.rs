//! Laws of the safety policy engine, proved from the definitions of its
//! checks.

use vstd::prelude::*;
use crate::containment::{
    is_under, lemma_below_is_under, lemma_relative_not_under_absolute, lemma_root_covers_absolute,
    under_any,
};
use crate::error::ErrorKind;
use crate::safety::{
    configured_matches, pattern_matches, process_off_message, HostAllowlist, PathAllowlist,
    SafetyConfig,
};
use crate::text::lowercase;
use crate::time::duration::Duration;

verus! {

/// A path allowlist whose allow-sets are empty refuses every read and every
/// write, with the error for a path that is not allowed.
pub proof fn law_empty_allow_sets_refuse(policy: PathAllowlist, path: Seq<char>)
    requires
        policy.read@ == Set::<Seq<char>>::empty(),
        policy.write@ == Set::<Seq<char>>::empty(),
    ensures
        policy.read_verdict(path) == Some((ErrorKind::PathNotAllowed, path)),
        policy.write_verdict(path) == Some((ErrorKind::PathNotAllowed, path)),
{
}

/// Deny overrides allow: a path under a denied prefix is refused for reading
/// and for writing, whatever the allow-sets hold.
pub proof fn law_deny_overrides_allow(policy: PathAllowlist, path: Seq<char>, denied: Seq<char>)
    requires
        policy.deny@.contains(denied),
        is_under(path, denied),
    ensures
        policy.read_verdict(path) == Some((ErrorKind::PathNotAllowed, path)),
        policy.write_verdict(path) == Some((ErrorKind::PathNotAllowed, path)),
{
}

/// A path is permitted exactly when it is under an allowed prefix and under
/// no denied prefix.
pub proof fn law_path_permission(policy: PathAllowlist, path: Seq<char>)
    ensures
        policy.read_verdict(path) is None <==> (under_any(path, policy.read@) && !under_any(
            path,
            policy.deny@,
        )),
        policy.write_verdict(path) is None <==> (under_any(path, policy.write@) && !under_any(
            path,
            policy.deny@,
        )),
{
}

/// Denying more never permits more: of two allowlists with the same
/// allow-sets, the one that denies at least as much permits at most as much.
pub proof fn law_more_denied_permits_less(a: PathAllowlist, b: PathAllowlist, path: Seq<char>)
    requires
        a.read@ == b.read@,
        a.write@ == b.write@,
        a.deny@.subset_of(b.deny@),
    ensures
        b.permits_read(path) ==> a.permits_read(path),
        b.permits_write(path) ==> a.permits_write(path),
{
    if a.denies(path) {
        let d = choose|d: Seq<char>| a.deny@.contains(d) && is_under(path, d);
        assert(b.deny@.contains(d) && is_under(path, d));
    }
}

/// The verdicts of a path allowlist depend on its three sets alone, not on
/// the order in which the prefixes were added.
pub proof fn law_order_of_additions_is_irrelevant(
    a: PathAllowlist,
    b: PathAllowlist,
    path: Seq<char>,
)
    requires
        a.read@ == b.read@,
        a.write@ == b.write@,
        a.deny@ == b.deny@,
    ensures
        a.read_verdict(path) == b.read_verdict(path),
        a.write_verdict(path) == b.write_verdict(path),
{
}

/// Containment is lexical: where nothing is denied, everything that
/// continues an allowed prefix with a slash may be read, whatever follows
/// the slash. Segments such as `..` are not resolved, so a caller has to
/// hand over paths in the form that the policy was configured for.
pub proof fn law_traversal_is_not_resolved(
    policy: PathAllowlist,
    prefix: Seq<char>,
    rest: Seq<char>,
)
    requires
        policy.read@.contains(prefix),
        policy.deny@ == Set::<Seq<char>>::empty(),
    ensures
        policy.read_verdict(prefix + seq!['/'] + rest) is None,
        policy.read_verdict(prefix + seq!['/', '.', '.', '/'] + rest) is None,
{
    lemma_below_is_under(prefix, rest);
    lemma_below_is_under(prefix, seq!['.', '.', '/'] + rest);
    assert(prefix + seq!['/'] + (seq!['.', '.', '/'] + rest) =~= prefix + seq![
        '/',
        '.',
        '.',
        '/',
    ] + rest);
}

/// A relative path is under no absolute prefix: where every allowed prefix
/// begins with a slash, a path that does not is refused.
pub proof fn law_relative_path_never_matches(policy: PathAllowlist, path: Seq<char>)
    requires
        path.len() == 0 || path[0] != '/',
        forall|p: Seq<char>| #[trigger] policy.read@.contains(p) ==> p.len() > 0 && p[0] == '/',
        forall|p: Seq<char>| #[trigger] policy.write@.contains(p) ==> p.len() > 0 && p[0] == '/',
    ensures
        !policy.permits_read(path),
        !policy.permits_write(path),
{
    if under_any(path, policy.read@) {
        let p = choose|p: Seq<char>| policy.read@.contains(p) && is_under(path, p);
        assert(policy.read@.contains(p));
        lemma_relative_not_under_absolute(path, p);
    }
    if under_any(path, policy.write@) {
        let p = choose|p: Seq<char>| policy.write@.contains(p) && is_under(path, p);
        assert(policy.write@.contains(p));
        lemma_relative_not_under_absolute(path, p);
    }
}

/// A host that matches a denied pattern is refused, whatever is allowed.
pub proof fn law_host_deny_overrides_allow(
    policy: HostAllowlist,
    host: Seq<char>,
    denied: Seq<char>,
)
    requires
        policy.denied@.contains(denied),
        configured_matches(lowercase(host), denied),
    ensures
        policy.verdict(host) == Some((ErrorKind::HostNotAllowed, host)),
{
}

/// A host allowlist without allowed patterns refuses every host.
pub proof fn law_no_allowed_hosts_refuse(policy: HostAllowlist, host: Seq<char>)
    requires
        policy.allowed@ == Set::<Seq<char>>::empty(),
    ensures
        policy.verdict(host) == Some((ErrorKind::HostNotAllowed, host)),
{
}

/// The pattern `*.suffix` matches the bare suffix and the hosts that end
/// with a dot and the suffix, and no other host.
pub proof fn law_wildcard_pattern(host: Seq<char>, suffix: Seq<char>)
    ensures
        pattern_matches(host, seq!['*', '.'] + suffix) <==> (host == suffix || (seq!['.']
            + suffix).is_suffix_of(host)),
{
    let pattern = seq!['*', '.'] + suffix;
    assert(pattern[0] == '*');
    assert(pattern[1] == '.');
    assert(pattern.skip(2) =~= suffix);
    assert(pattern.skip(1) =~= seq!['.'] + suffix);
    assert(pattern != seq!['*']) by {
        assert(seq!['*'].len() == 1);
    }
}

/// The pattern `*` matches every host.
pub proof fn law_star_matches_every_host(host: Seq<char>)
    ensures
        pattern_matches(host, seq!['*']),
        configured_matches(host, seq!['*']),
{
}

/// A pattern without a leading `*.` that is not `*` matches only the host
/// equal to it.
pub proof fn law_literal_pattern(host: Seq<char>, pattern: Seq<char>)
    requires
        pattern != seq!['*'],
        !(pattern.len() >= 2 && pattern[0] == '*' && pattern[1] == '.'),
    ensures
        pattern_matches(host, pattern) <==> host == pattern,
{
}

/// Clamping is idempotent: a clamped timeout is left as it is.
pub proof fn law_clamp_idempotent(config: SafetyConfig, timeout: Duration)
    ensures
        config.clamped(config.clamped(timeout)) == config.clamped(timeout),
{
}

/// Clamping is monotonic: of two requests the longer gets at least as much.
pub proof fn law_clamp_monotonic(config: SafetyConfig, shorter: Duration, longer: Duration)
    requires
        shorter.le(longer),
    ensures
        config.clamped(shorter).le(config.clamped(longer)),
{
}

/// A clamped timeout exceeds neither the request nor the maximum, and a
/// request within the maximum is granted as it is.
pub proof fn law_clamp_bounds(config: SafetyConfig, timeout: Duration)
    ensures
        config.clamped(timeout).le(config.max_timeout),
        config.clamped(timeout).le(timeout),
        timeout.le(config.max_timeout) ==> config.clamped(timeout) == timeout,
        !timeout.le(config.max_timeout) ==> config.clamped(timeout) == config.max_timeout,
{
}

/// Process execution is looked at first: while it is off every command is
/// refused with the same error, whether the command allowlist holds it or
/// not.
pub proof fn law_process_gate_first(config: SafetyConfig, command: Seq<char>)
    requires
        !config.allow_process,
    ensures
        config.command_verdict(command) == Some(
            (ErrorKind::NotPermitted, process_off_message()),
        ),
{
}

/// With process execution on, a command is refused exactly when a command
/// allowlist is set and does not hold it; an empty allowlist refuses all.
pub proof fn law_command_allowlist(config: SafetyConfig, command: Seq<char>)
    requires
        config.allow_process,
    ensures
        config.allowed_commands is None ==> config.command_verdict(command) is None,
        config.allowed_commands matches Some(set) ==> (config.command_verdict(command) is None
            <==> set@.contains(command)),
        config.allowed_commands matches Some(set) && !set@.contains(command)
            ==> config.command_verdict(command) == Some((ErrorKind::CommandNotAllowed, command)),
{
}

/// The strict configuration refuses every path, host, environment variable
/// and command.
pub proof fn law_strict_refuses_everything(
    config: SafetyConfig,
    path: Seq<char>,
    host: Seq<char>,
    name: Seq<char>,
    command: Seq<char>,
)
    requires
        config.is_strict(),
    ensures
        config.paths.read_verdict(path) == Some((ErrorKind::PathNotAllowed, path)),
        config.paths.write_verdict(path) == Some((ErrorKind::PathNotAllowed, path)),
        config.hosts.verdict(host) == Some((ErrorKind::HostNotAllowed, host)),
        config.env_verdict(name) == Some((ErrorKind::EnvNotAllowed, name)),
        config.command_verdict(command) == Some(
            (ErrorKind::NotPermitted, process_off_message()),
        ),
{
}

/// The default configuration refuses every path, host, environment variable
/// and command as well.
pub proof fn law_default_refuses_everything(
    config: SafetyConfig,
    path: Seq<char>,
    host: Seq<char>,
    name: Seq<char>,
    command: Seq<char>,
)
    requires
        config.is_default(),
    ensures
        config.paths.read_verdict(path) == Some((ErrorKind::PathNotAllowed, path)),
        config.paths.write_verdict(path) == Some((ErrorKind::PathNotAllowed, path)),
        config.hosts.verdict(host) == Some((ErrorKind::HostNotAllowed, host)),
        config.env_verdict(name) == Some((ErrorKind::EnvNotAllowed, name)),
        config.command_verdict(command) == Some(
            (ErrorKind::NotPermitted, process_off_message()),
        ),
{
}

/// The permissive configuration permits every absolute path, every host,
/// every environment variable and every command.
pub proof fn law_permissive_permits_everything(
    config: SafetyConfig,
    path: Seq<char>,
    host: Seq<char>,
    name: Seq<char>,
    command: Seq<char>,
)
    requires
        config.is_permissive(),
        path.len() > 0,
        path[0] == '/',
    ensures
        config.paths.read_verdict(path) is None,
        config.paths.write_verdict(path) is None,
        config.hosts.verdict(host) is None,
        config.env_verdict(name) is None,
        config.command_verdict(command) is None,
{
    lemma_root_covers_absolute(path);
    let root = seq!['/'];
    assert(config.paths.read@.contains(root) && is_under(path, root));
    assert(config.paths.write@.contains(root) && is_under(path, root));
    let star = seq!['*'];
    assert(config.hosts.allowed@.contains(star) && configured_matches(lowercase(host), star));
}

/// The permissive configuration still refuses a relative path: its only
/// prefix is the root.
pub proof fn law_permissive_refuses_relative(config: SafetyConfig, path: Seq<char>)
    requires
        config.is_permissive(),
        path.len() == 0 || path[0] != '/',
    ensures
        config.paths.read_verdict(path) == Some((ErrorKind::PathNotAllowed, path)),
        config.paths.write_verdict(path) == Some((ErrorKind::PathNotAllowed, path)),
{
    law_relative_path_never_matches(config.paths, path);
}

/// A timeout is resolved to the default where none is asked for, and never
/// to more than the maximum where one is.
pub proof fn law_resolved_timeout(config: SafetyConfig, requested: Option<Duration>)
    ensures
        requested is None ==> config.resolved(requested) == config.default_timeout,
        requested matches Some(t) ==> config.resolved(requested).le(config.max_timeout)
            && config.resolved(requested).le(t),
{
}

} // verus!
