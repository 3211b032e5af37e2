//! The layers that a client wraps round its transport, in their order.

use vstd::prelude::*;

verus! {

/// The policy of a retry layer: how often a request is tried again, and how
/// long is waited in between. Its inside is `reqwest_retry`'s.
#[verifier::external_type_specification]
#[verifier::external_body]
pub struct ExExponentialBackoff(reqwest_retry::policies::ExponentialBackoff);

/// Calls `ExponentialBackoff::builder` and `build_with_max_retries` of
/// `reqwest_retry`. Trusted; nothing is claimed of the policy that comes back.
#[verifier::external_body]
pub(crate) fn backoff_policy(retries: u32) -> reqwest_retry::policies::ExponentialBackoff {
    reqwest_retry::policies::ExponentialBackoff::builder().build_with_max_retries(retries)
}

/// `Clone::clone` of `reqwest_retry`'s `ExponentialBackoff`. Trusted: the
/// type is `Copy`, and its clone is the same policy.
pub assume_specification[ <reqwest_retry::policies::ExponentialBackoff as Clone>::clone ](
    policy: &reqwest_retry::policies::ExponentialBackoff,
) -> (copy: reqwest_retry::policies::ExponentialBackoff)
    ensures
        copy == *policy,
;

/// Where an authentication layer looks credentials up.
#[derive(Clone, Copy, Debug, PartialEq, Eq, Structural)]
pub enum KeyringProviderType {
    /// Nowhere: no lookup is made.
    Disabled,
    /// In the keyring backend.
    Keyring,
    /// With the user, who is asked.
    Interactive,
}

/// One layer that was asked for. `M` is the caller's own kind of layer,
/// which is carried and never looked into.
#[derive(Clone, Debug, PartialEq, Eq)]
pub enum Middleware<M> {
    /// Tries a request again after a passing failure, waiting longer each
    /// time, up to `max_retries` times. `policy` is the policy that was made
    /// for that number.
    Retry { max_retries: u32, policy: reqwest_retry::policies::ExponentialBackoff },
    /// Answers a demand for credentials by a lookup.
    Auth { keyring: KeyringProviderType },
    /// A layer of the caller's.
    Custom(M),
}

/// Whether `layer` is a retry layer for up to `retries` further attempts.
pub open spec fn is_retry<M>(layer: Middleware<M>, retries: u32) -> bool {
    layer matches Middleware::Retry { max_retries, .. } && max_retries == retries
}

/// The layers that were asked for, in the order in which they were added.
/// The first one added sees each request first.
#[derive(Clone, Debug)]
pub struct MiddlewareStack<M> {
    layers: Vec<Middleware<M>>,
}

impl<M> View for MiddlewareStack<M> {
    type V = Seq<Middleware<M>>;

    closed spec fn view(&self) -> Seq<Middleware<M>> {
        self.layers@
    }
}

impl<M> Default for MiddlewareStack<M> {
    fn default() -> (stack: Self)
        ensures
            stack@ == Seq::<Middleware<M>>::empty(),
    {
        MiddlewareStack { layers: Vec::new() }
    }
}

impl<M> MiddlewareStack<M> {
    /// Adds a layer of the caller's.
    pub fn with(self, middleware: M) -> (stack: Self)
        ensures
            stack@ == self@.push(Middleware::Custom(middleware)),
    {
        let mut layers = self.layers;
        layers.push(Middleware::Custom(middleware));
        MiddlewareStack { layers }
    }

    /// Adds a retry layer for up to `retries` further attempts; none where
    /// `retries` is zero.
    pub fn with_retries(self, retries: u32) -> (stack: Self)
        ensures
            retries == 0 ==> stack@ == self@,
            retries > 0 ==> stack@.len() == self@.len() + 1 && stack@.drop_last() == self@
                && is_retry(stack@.last(), retries),
    {
        let mut layers = self.layers;
        if retries > 0 {
            let ghost before = layers@;
            layers.push(Middleware::Retry { max_retries: retries, policy: backoff_policy(retries) });
            assert(layers@.drop_last() =~= before);
        }
        MiddlewareStack { layers }
    }

    /// Adds an authentication layer that looks credentials up as `keyring` says.
    pub fn with_auth(self, keyring: KeyringProviderType) -> (stack: Self)
        ensures
            stack@ == self@.push(Middleware::Auth { keyring }),
    {
        let mut layers = self.layers;
        layers.push(Middleware::Auth { keyring });
        MiddlewareStack { layers }
    }

    /// How many layers were added.
    pub fn len(&self) -> (n: usize)
        ensures
            n == self@.len(),
    {
        self.layers.len()
    }

    /// The layer that was added as number `i`, if there are so many.
    pub fn get(&self, i: usize) -> (layer: Option<&Middleware<M>>)
        ensures
            layer is Some <==> i < self@.len(),
            layer matches Some(found) ==> *found == self@[i as int],
    {
        if i < self.layers.len() {
            Some(&self.layers[i])
        } else {
            None
        }
    }

    /// The layers in the order in which they were added.
    pub fn layers(&self) -> (layers: &Vec<Middleware<M>>)
        ensures
            layers@ == self@,
    {
        &self.layers
    }
}

} // verus!
