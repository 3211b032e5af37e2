//! What holds of the library as a whole, beyond what each function promises.

use vstd::prelude::*;
use crate::base_client::{
    fresh_config, is_built_layers, rejects_all, user_agent_text, warnings_after_build, BaseClientBuilderView,
    Environment, Layer, PRODUCT,
};
use crate::connectivity::Connectivity;
use crate::extras::{lemma_sorted_unique, lemma_strictly_increasing_unique, sorted_unique};
use crate::middleware::Middleware;
use crate::resolution::{decisive_path, generic_line, requirement_line, AnnotatedDistView};

verus! {

/// Offline, the layers that were asked for count for nothing: whatever they
/// are, the build has the one layer that enforces offline use, and so every
/// request is rejected before it reaches the transport.
pub proof fn law_offline_ignores_middleware<M: Clone>(
    asked: Seq<Middleware<M>>,
    other: Seq<Middleware<M>>,
    built: Seq<Layer<M>>,
)
    requires
        is_built_layers(Connectivity::Offline, asked, built),
    ensures
        built == seq![Layer::<M>::OfflineEnforcement],
        is_built_layers(Connectivity::Offline, other, built),
        rejects_all(built),
{
    assert(built[0] is OfflineEnforcement);
}

/// Online, no layer of a build rejects requests out of hand.
pub proof fn law_online_hands_on<M: Clone>(asked: Seq<Middleware<M>>, built: Seq<Layer<M>>)
    requires
        is_built_layers(Connectivity::Online, asked, built),
    ensures
        built.len() == asked.len(),
        !rejects_all(built),
{
}

/// The user agent begins with the product, a slash and the version, with a
/// fingerprint and without.
pub proof fn law_user_agent_prefix(version: Seq<char>, fingerprint: Option<Seq<char>>)
    ensures
        (PRODUCT@ + "/"@ + version).is_prefix_of(user_agent_text(version, fingerprint)),
{
    let head = PRODUCT@ + "/"@ + version;
    let agent = user_agent_text(version, fingerprint);
    assert(agent.subrange(0, head.len() as int) =~= head);
}

/// The fingerprint touches the user agent only: two builds that differ in
/// nothing but what was written out as the fingerprint have the same
/// timeout, trust the same roots, keep the same pool, and raise the same
/// warnings.
pub proof fn law_fingerprint_changes_user_agent_only<C, M>(
    builder: BaseClientBuilderView<C, M>,
    env: Environment,
    other: Environment,
    seen: Seq<Seq<char>>,
)
    requires
        other.version == env.version,
        other.http_timeout == env.http_timeout,
        other.request_timeout == env.request_timeout,
        other.fallback_timeout == env.fallback_timeout,
        other.ssl_cert_file == env.ssl_cert_file,
    ensures
        fresh_config(builder, other).read_timeout == fresh_config(builder, env).read_timeout,
        fresh_config(builder, other).trust == fresh_config(builder, env).trust,
        fresh_config(builder, other).pool_max_idle_per_host == fresh_config(
            builder,
            env,
        ).pool_max_idle_per_host,
        fresh_config(builder, other).built_in_root_certs == fresh_config(builder, env).built_in_root_certs,
        warnings_after_build(seen, builder, other) == warnings_after_build(seen, builder, env),
{
}

/// Sorting and removing repetitions a second time changes nothing.
pub proof fn law_sorted_unique_idempotent(extras: Seq<Seq<char>>)
    ensures
        sorted_unique(sorted_unique(extras)) == sorted_unique(extras),
{
    lemma_sorted_unique(extras);
    lemma_sorted_unique(sorted_unique(extras));
    lemma_strictly_increasing_unique(sorted_unique(sorted_unique(extras)), sorted_unique(extras));
}

/// The extras are listed by what they are, not by how they were handed in:
/// two lists that hold the same extras, in whatever order and however often,
/// are listed alike.
pub proof fn law_sorted_unique_of_same_elements(extras: Seq<Seq<char>>, other: Seq<Seq<char>>)
    requires
        forall|x: Seq<char>| extras.contains(x) <==> other.contains(x),
    ensures
        sorted_unique(extras) == sorted_unique(other),
{
    lemma_sorted_unique(extras);
    lemma_sorted_unique(other);
    lemma_strictly_increasing_unique(sorted_unique(extras), sorted_unique(other));
}

/// The line of a pin does not depend on the order of its extras, nor on how
/// often one is named.
pub proof fn law_line_ignores_order_of_extras(
    pin: AnnotatedDistView,
    other: AnnotatedDistView,
    include_extras: bool,
    rooted: bool,
)
    requires
        other.dist == pin.dist,
        forall|x: Seq<char>| pin.extras.contains(x) <==> other.extras.contains(x),
    ensures
        requirement_line(other, include_extras, rooted) == requirement_line(
            pin,
            include_extras,
            rooted,
        ),
{
    law_sorted_unique_of_same_elements(pin.extras, other.extras);
    if pin.extras.len() > 0 {
        assert(pin.extras.contains(pin.extras[0]));
    }
    if other.extras.len() > 0 {
        assert(other.extras.contains(other.extras[0]));
    }
    assert(generic_line(other, include_extras) == generic_line(pin, include_extras));
}

/// The line is a function of what the pin holds: two pins with the same
/// texts have the same line, and so has one pin asked twice.
pub proof fn law_line_is_determined(
    pin: AnnotatedDistView,
    other: AnnotatedDistView,
    include_extras: bool,
    rooted: bool,
)
    requires
        other.dist == pin.dist,
        other.extras == pin.extras,
    ensures
        requirement_line(other, include_extras, rooted) == requirement_line(
            pin,
            include_extras,
            rooted,
        ),
{
}

/// The operating system's answer counts for one form of URL only: a pin
/// without a bare path has the same line whatever the answer is.
pub proof fn law_line_asks_the_root_of_a_bare_path_only(pin: AnnotatedDistView, include_extras: bool)
    requires
        decisive_path(pin) is None,
    ensures
        requirement_line(pin, include_extras, true) == requirement_line(pin, include_extras, false),
{
}

} // verus!
