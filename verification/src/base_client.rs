//! The builder of a client, and the client it builds: a transport, the
//! layers wrapped round it, and the timeout of each request.

use vstd::prelude::*;
use vstd::string::*;
use crate::connectivity::Connectivity;
use crate::middleware::{Middleware, MiddlewareStack};
use crate::timeout::{first_set, resolve_timeout, text_of, timeout_of, timeout_warning};
use crate::tls::{cert_warning, choose_trust, trust_store_of, CertFile, TrustStore};
use crate::warnings::{warned, WarningSink};

verus! {

/// The product that the user agent names.
pub const PRODUCT: &'static str = "uv";

/// How many idle connections a transport keeps for one host.
pub const POOL_MAX_IDLE_PER_HOST: usize = 20;

/// The interpreter and its platform, as environment markers describe them.
/// A registry is told about them in the user agent.
#[derive(Clone, Debug, PartialEq, Eq)]
pub struct MarkerEnvironment {
    pub implementation_name: String,
    pub implementation_version: String,
    pub os_name: String,
    pub platform_machine: String,
    pub platform_python_implementation: String,
    pub platform_release: String,
    pub platform_system: String,
    pub platform_version: String,
    pub python_full_version: String,
    pub python_version: String,
    pub sys_platform: String,
}

/// The operating system and the architecture that packages are chosen for.
#[derive(Clone, Debug, PartialEq, Eq)]
pub struct Platform {
    pub os: String,
    pub arch: String,
}

/// What a build learns from the process it runs in, taken once.
#[derive(Clone, Debug, PartialEq, Eq)]
pub struct Environment {
    /// The version of the running program.
    pub version: String,
    /// The value of `UV_HTTP_TIMEOUT`, where it is set.
    pub http_timeout: Option<String>,
    /// The value of `UV_REQUEST_TIMEOUT`, the older name of the same.
    pub request_timeout: Option<String>,
    /// The value of `HTTP_TIMEOUT`.
    pub fallback_timeout: Option<String>,
    /// The value of `SSL_CERT_FILE`, where it is set, and whether the file is there.
    pub ssl_cert_file: Option<CertFile>,
    /// The fingerprint of interpreter and platform as JSON, where the markers
    /// are configured and could be written out.
    pub fingerprint: Option<String>,
}

/// The settings of a transport that is to be made.
#[derive(Clone, Debug, PartialEq, Eq)]
pub struct TransportConfig {
    pub user_agent: String,
    /// How many idle connections are kept for one host.
    pub pool_max_idle_per_host: usize,
    /// The time that a read may take, in seconds.
    pub read_timeout: u64,
    /// Whether the roots that the transport would trust by itself stay trusted.
    pub built_in_root_certs: bool,
    pub trust: TrustStore,
}

/// The settings of a [`TransportConfig`], the user agent as text.
pub struct TransportConfigView {
    pub user_agent: Seq<char>,
    pub pool_max_idle_per_host: usize,
    pub read_timeout: u64,
    pub built_in_root_certs: bool,
    pub trust: TrustStore,
}

impl View for TransportConfig {
    type V = TransportConfigView;

    open spec fn view(&self) -> TransportConfigView {
        TransportConfigView {
            user_agent: self.user_agent@,
            pool_max_idle_per_host: self.pool_max_idle_per_host,
            read_timeout: self.read_timeout,
            built_in_root_certs: self.built_in_root_certs,
            trust: self.trust,
        }
    }
}

/// The transport under the layers. `C` is the caller's kind of transport,
/// which is carried and never looked into.
#[derive(Clone, Debug, PartialEq, Eq)]
pub enum Transport<C> {
    /// The transport that the caller handed in, to be used as it is.
    Preset(C),
    /// A transport to be made with these settings.
    Fresh(TransportConfig),
}

/// A [`Transport`], its settings taken by their view.
pub enum TransportView<C> {
    Preset(C),
    Fresh(TransportConfigView),
}

impl<C> View for Transport<C> {
    type V = TransportView<C>;

    open spec fn view(&self) -> TransportView<C> {
        match self {
            Transport::Preset(client) => TransportView::Preset(*client),
            Transport::Fresh(config) => TransportView::Fresh(config@),
        }
    }
}

/// One layer round a transport.
#[derive(Clone, Debug, PartialEq, Eq)]
pub enum Layer<M> {
    /// Answers every request with a rejection and hands none on.
    OfflineEnforcement,
    /// A layer that was asked for.
    Configured(Middleware<M>),
}

/// A transport and the layers round it, the outermost first.
#[derive(Clone, Debug, PartialEq, Eq)]
pub struct ComposedClient<C, M> {
    pub transport: Transport<C>,
    pub layers: Vec<Layer<M>>,
}

/// The answer to a request that was made while offline.
#[derive(Clone, Debug, PartialEq, Eq)]
pub struct OfflineError {
    url: String,
}

impl View for OfflineError {
    type V = Seq<char>;

    closed spec fn view(&self) -> Seq<char> {
        self.url@
    }
}

impl OfflineError {
    /// The URL that was asked for.
    pub fn url(&self) -> (url: &String)
        ensures
            url@ == self@,
    {
        &self.url
    }
}

/// Whether some layer rejects every request, so that none reaches the transport.
pub open spec fn rejects_all<M>(layers: Seq<Layer<M>>) -> bool {
    exists|i: int| 0 <= i < layers.len() && #[trigger] layers[i] is OfflineEnforcement
}

impl<M> Layer<M> {
    /// What this layer does with a request for `url` by itself: the layer
    /// that enforces offline use rejects it, every other hands it on.
    pub fn intercept(&self, url: &str) -> (r: Result<(), OfflineError>)
        ensures
            r is Err <==> self is OfflineEnforcement,
            r matches Err(e) ==> e@ == url@,
    {
        match self {
            Layer::OfflineEnforcement => Err(OfflineError { url: String::from_str(url) }),
            Layer::Configured(_) => Ok(()),
        }
    }
}

impl<C, M> ComposedClient<C, M> {
    /// Decides on a request for `url` before anything is sent: it is handed
    /// on to the transport, or rejected because a layer enforces offline use.
    pub fn intercept(&self, url: &str) -> (r: Result<(), OfflineError>)
        ensures
            r is Err <==> rejects_all(self.layers@),
            r matches Err(e) ==> e@ == url@,
    {
        let mut i: usize = 0;
        while i < self.layers.len()
            invariant
                i <= self.layers@.len(),
                forall|j: int| 0 <= j < i ==> !(#[trigger] self.layers@[j] is OfflineEnforcement),
            decreases self.layers.len() - i,
        {
            let verdict = self.layers[i].intercept(url);
            if verdict.is_err() {
                return verdict;
            }
            i = i + 1;
        }
        Ok(())
    }
}

/// The user agent: product, a slash and the version, then, where there is a
/// fingerprint, a space and the fingerprint.
pub open spec fn user_agent_text(version: Seq<char>, fingerprint: Option<Seq<char>>) -> Seq<char> {
    match fingerprint {
        Some(json) => PRODUCT@ + "/"@ + version + " "@ + json,
        None => PRODUCT@ + "/"@ + version,
    }
}

/// Writes the user agent.
pub fn user_agent(version: &str, fingerprint: Option<&str>) -> (agent: String)
    ensures
        agent@ == user_agent_text(
            version@,
            match fingerprint {
                Some(json) => Some(json@),
                None => None,
            },
        ),
        (PRODUCT@ + "/"@ + version@).is_prefix_of(agent@),
{
    let mut agent = String::from_str(PRODUCT);
    agent.append("/");
    agent.append(version);
    if let Some(json) = fingerprint {
        agent.append(" ");
        agent.append(json);
    }
    agent
}

/// What a builder holds.
pub struct BaseClientBuilderView<C, M> {
    pub native_tls: bool,
    pub connectivity: Connectivity,
    pub client: Option<C>,
    pub markers: Option<MarkerEnvironment>,
    pub platform: Option<Platform>,
    pub middleware_stack: Seq<Middleware<M>>,
}

/// A builder of a [`BaseClient`].
#[derive(Clone, Debug)]
pub struct BaseClientBuilder<C, M> {
    native_tls: bool,
    connectivity: Connectivity,
    client: Option<C>,
    markers: Option<MarkerEnvironment>,
    platform: Option<Platform>,
    middleware_stack: MiddlewareStack<M>,
}

impl<C, M> View for BaseClientBuilder<C, M> {
    type V = BaseClientBuilderView<C, M>;

    closed spec fn view(&self) -> BaseClientBuilderView<C, M> {
        BaseClientBuilderView {
            native_tls: self.native_tls,
            connectivity: self.connectivity,
            client: self.client,
            markers: self.markers,
            platform: self.platform,
            middleware_stack: self.middleware_stack@,
        }
    }
}

/// The builder that nothing was said to: online, the compiled-in roots, no
/// transport handed in, no fingerprint, no layers.
pub open spec fn default_builder<C, M>() -> BaseClientBuilderView<C, M> {
    BaseClientBuilderView {
        native_tls: false,
        connectivity: Connectivity::Online,
        client: None,
        markers: None,
        platform: None,
        middleware_stack: Seq::empty(),
    }
}

impl<C, M> Default for BaseClientBuilder<C, M> {
    fn default() -> (builder: Self)
        ensures
            builder@ == default_builder::<C, M>(),
    {
        BaseClientBuilder {
            native_tls: false,
            connectivity: Connectivity::Online,
            client: None,
            markers: None,
            platform: None,
            middleware_stack: MiddlewareStack::default(),
        }
    }
}

/// The fingerprint that goes into the user agent: the one that was written
/// out, where markers are configured.
pub open spec fn fingerprint_used(
    markers: Option<MarkerEnvironment>,
    env: Environment,
) -> Option<Seq<char>> {
    if markers is Some {
        text_of(env.fingerprint)
    } else {
        None
    }
}

/// The value of the timeout variable that decides.
pub open spec fn timeout_value(env: Environment) -> Option<Seq<char>> {
    first_set(
        text_of(env.http_timeout),
        text_of(env.request_timeout),
        text_of(env.fallback_timeout),
    )
}

/// The settings of the transport that a build makes where none was handed in.
pub open spec fn fresh_config<C, M>(
    builder: BaseClientBuilderView<C, M>,
    env: Environment,
) -> TransportConfigView {
    TransportConfigView {
        user_agent: user_agent_text(env.version@, fingerprint_used(builder.markers, env)),
        pool_max_idle_per_host: POOL_MAX_IDLE_PER_HOST,
        read_timeout: timeout_of(timeout_value(env)),
        built_in_root_certs: false,
        trust: trust_store_of(builder.native_tls, env.ssl_cert_file),
    }
}

/// Whether `got` is the transport of a build: a clone of the one handed in,
/// or one to be made with the settings of [`fresh_config`].
pub open spec fn is_built_transport<C: Clone, M>(
    builder: BaseClientBuilderView<C, M>,
    env: Environment,
    got: TransportView<C>,
) -> bool {
    match builder.client {
        Some(preset) => got matches TransportView::Preset(client) && cloned(preset, client),
        None => got == TransportView::<C>::Fresh(fresh_config(builder, env)),
    }
}

/// Whether `copy` is a clone of `layer`.
pub open spec fn is_middleware_clone<M: Clone>(layer: Middleware<M>, copy: Middleware<M>) -> bool {
    match (layer, copy) {
        (Middleware::Custom(a), Middleware::Custom(b)) => cloned(a, b),
        _ => layer == copy,
    }
}

/// Whether `got` are the layers of a build. Offline there is one, which
/// enforces it, whatever was asked for. Online they are clones of the
/// layers asked for, in the order in which they were added.
pub open spec fn is_built_layers<M: Clone>(
    connectivity: Connectivity,
    stack: Seq<Middleware<M>>,
    got: Seq<Layer<M>>,
) -> bool {
    match connectivity {
        Connectivity::Offline => got == seq![Layer::<M>::OfflineEnforcement],
        Connectivity::Online => {
            &&& got.len() == stack.len()
            &&& forall|i: int|
                0 <= i < got.len() ==> (#[trigger] got[i] matches Layer::Configured(copy)
                    && is_middleware_clone(stack[i], copy))
        },
    }
}

/// The warnings after a build: the one on the timeout first, then, where a
/// transport is made, the one on the CA bundle; each only where it is new.
pub open spec fn warnings_after_build<C, M>(
    seen: Seq<Seq<char>>,
    builder: BaseClientBuilderView<C, M>,
    env: Environment,
) -> Seq<Seq<char>> {
    let first = warned(seen, timeout_warning(timeout_value(env)));
    if builder.client is Some {
        first
    } else {
        warned(first, cert_warning(env.ssl_cert_file))
    }
}

/// The layers of a build reject every request exactly when the build is
/// offline, whatever layers were asked for.
pub proof fn lemma_built_layers_enforce<M: Clone>(
    connectivity: Connectivity,
    stack: Seq<Middleware<M>>,
    got: Seq<Layer<M>>,
)
    requires
        is_built_layers(connectivity, stack, got),
    ensures
        rejects_all(got) <==> connectivity == Connectivity::Offline,
{
    if connectivity == Connectivity::Offline {
        assert(got[0] is OfflineEnforcement);
    }
}

fn clone_middleware<M: Clone>(layer: &Middleware<M>) -> (copy: Middleware<M>)
    ensures
        is_middleware_clone(*layer, copy),
{
    match layer {
        Middleware::Retry { max_retries, policy } => Middleware::Retry {
            max_retries: *max_retries,
            policy: *policy,
        },
        Middleware::Auth { keyring } => Middleware::Auth { keyring: *keyring },
        Middleware::Custom(inner) => Middleware::Custom(inner.clone()),
    }
}

impl<C, M> BaseClientBuilder<C, M> {
    /// A builder with the defaults.
    pub fn new() -> (builder: Self)
        ensures
            builder@ == default_builder::<C, M>(),
    {
        BaseClientBuilder {
            native_tls: false,
            connectivity: Connectivity::Online,
            client: None,
            markers: None,
            platform: None,
            middleware_stack: MiddlewareStack::default(),
        }
    }

    /// Sets whether the network may be used.
    #[must_use]
    pub fn connectivity(self, connectivity: Connectivity) -> (builder: Self)
        ensures
            builder@ == (BaseClientBuilderView { connectivity, ..self@ }),
    {
        let mut builder = self;
        builder.connectivity = connectivity;
        builder
    }

    /// Sets whether the operating system's certificate store is trusted.
    #[must_use]
    pub fn native_tls(self, native_tls: bool) -> (builder: Self)
        ensures
            builder@ == (BaseClientBuilderView { native_tls, ..self@ }),
    {
        let mut builder = self;
        builder.native_tls = native_tls;
        builder
    }

    /// Hands in a transport. The build then uses it as it is, and makes none.
    #[must_use]
    pub fn client(self, client: C) -> (builder: Self)
        ensures
            builder@ == (BaseClientBuilderView { client: Some(client), ..self@ }),
    {
        let mut builder = self;
        builder.client = Some(client);
        builder
    }

    /// Sets the markers that the fingerprint in the user agent is made from.
    #[must_use]
    pub fn markers(self, markers: MarkerEnvironment) -> (builder: Self)
        ensures
            builder@ == (BaseClientBuilderView { markers: Some(markers), ..self@ }),
    {
        let mut builder = self;
        builder.markers = Some(markers);
        builder
    }

    /// Sets the platform that the fingerprint in the user agent names.
    #[must_use]
    pub fn platform(self, platform: Platform) -> (builder: Self)
        ensures
            builder@ == (BaseClientBuilderView { platform: Some(platform), ..self@ }),
    {
        let mut builder = self;
        builder.platform = Some(platform);
        builder
    }

    /// Sets the layers that are asked for, in place of those set before.
    #[must_use]
    pub fn middleware_stack(self, middleware_stack: MiddlewareStack<M>) -> (builder: Self)
        ensures
            builder@ == (BaseClientBuilderView { middleware_stack: middleware_stack@, ..self@ }),
    {
        let mut builder = self;
        builder.middleware_stack = middleware_stack;
        builder
    }

    /// Whether the network may not be used.
    pub fn is_offline(&self) -> (offline: bool)
        ensures
            offline == (self@.connectivity == Connectivity::Offline),
    {
        match self.connectivity {
            Connectivity::Offline => true,
            Connectivity::Online => false,
        }
    }

    /// The markers that were set.
    pub fn configured_markers(&self) -> (markers: &Option<MarkerEnvironment>)
        ensures
            *markers == self@.markers,
    {
        &self.markers
    }

    /// The platform that was set.
    pub fn configured_platform(&self) -> (platform: &Option<Platform>)
        ensures
            *platform == self@.platform,
    {
        &self.platform
    }

    fn compose(&self) -> (layers: Vec<Layer<M>>) where M: Clone
        ensures
            is_built_layers(self@.connectivity, self@.middleware_stack, layers@),
    {
        let mut layers: Vec<Layer<M>> = Vec::new();
        match self.connectivity {
            Connectivity::Offline => {
                layers.push(Layer::OfflineEnforcement);
                assert(layers@ =~= seq![Layer::<M>::OfflineEnforcement]);
            },
            Connectivity::Online => {
                let mut i: usize = 0;
                while i < self.middleware_stack.len()
                    invariant
                        i <= self.middleware_stack@.len(),
                        layers@.len() == i,
                        forall|j: int|
                            0 <= j < i ==> (#[trigger] layers@[j] matches Layer::Configured(copy)
                                && is_middleware_clone(self.middleware_stack@[j], copy)),
                    decreases self.middleware_stack@.len() - i,
                {
                    let copy = clone_middleware(&self.middleware_stack.layers()[i]);
                    layers.push(Layer::Configured(copy));
                    i = i + 1;
                }
            },
        }
        layers
    }

    /// Builds the client.
    ///
    /// The timeout is that of the first timeout variable that is set, or the
    /// default. The transport is the one handed in, or one to be made: with
    /// the user agent, the timeout, and the roots chosen by
    /// [`trust_store_of`]. Online, the layers asked for go round it in their
    /// order; offline, the one layer that rejects every request. The
    /// warnings that are due go to `sink`.
    pub fn build(&self, env: &Environment, sink: &mut WarningSink) -> (client: BaseClient<C, M>) where
        C: Clone,
        M: Clone,

        ensures
            client@.connectivity == self@.connectivity,
            client@.timeout == timeout_of(timeout_value(*env)),
            is_built_transport(self@, *env, client@.transport),
            is_built_layers(self@.connectivity, self@.middleware_stack, client@.layers),
            final(sink)@ == warnings_after_build(old(sink)@, self@, *env),
    {
        let resolved = resolve_timeout(&env.http_timeout, &env.request_timeout, &env.fallback_timeout);
        let timeout = resolved.seconds;
        if let Some(message) = resolved.warning {
            sink.warn_once(message);
        }
        let transport = match &self.client {
            Some(preset) => Transport::Preset(preset.clone()),
            None => {
                let fingerprint: Option<&str> = match (&self.markers, &env.fingerprint) {
                    (Some(_), Some(json)) => Some(json.as_str()),
                    _ => None,
                };
                let agent = user_agent(env.version.as_str(), fingerprint);
                let trust = choose_trust(self.native_tls, &env.ssl_cert_file);
                if let Some(message) = trust.warning {
                    sink.warn_once(message);
                }
                Transport::Fresh(
                    TransportConfig {
                        user_agent: agent,
                        pool_max_idle_per_host: POOL_MAX_IDLE_PER_HOST,
                        read_timeout: timeout,
                        built_in_root_certs: false,
                        trust: trust.store,
                    },
                )
            },
        };
        let layers = self.compose();
        proof {
            lemma_built_layers_enforce(self@.connectivity, self@.middleware_stack, layers@);
        }
        BaseClient {
            client: ComposedClient { transport, layers },
            connectivity: self.connectivity,
            timeout,
        }
    }
}

/// Whether `copy` is a clone of `layer`.
pub open spec fn is_layer_clone<M: Clone>(layer: Layer<M>, copy: Layer<M>) -> bool {
    match (layer, copy) {
        (Layer::Configured(a), Layer::Configured(b)) => is_middleware_clone(a, b),
        _ => layer == copy,
    }
}

/// Whether `copy` is a clone of `transport`.
pub open spec fn is_transport_clone<C: Clone>(transport: TransportView<C>, copy: TransportView<C>) -> bool {
    match (transport, copy) {
        (TransportView::Preset(a), TransportView::Preset(b)) => cloned(a, b),
        _ => transport == copy,
    }
}

/// Whether `copy` is a clone of `client`: the same connectivity and
/// timeout, and a clone of the transport and of each layer.
pub open spec fn is_client_clone<C: Clone, M: Clone>(
    client: BaseClientView<C, M>,
    copy: BaseClientView<C, M>,
) -> bool {
    &&& copy.connectivity == client.connectivity
    &&& copy.timeout == client.timeout
    &&& is_transport_clone(client.transport, copy.transport)
    &&& copy.layers.len() == client.layers.len()
    &&& forall|i: int|
        0 <= i < copy.layers.len() ==> is_layer_clone(client.layers[i], #[trigger] copy.layers[i])
}

fn clone_transport<C: Clone>(transport: &Transport<C>) -> (copy: Transport<C>)
    ensures
        is_transport_clone(transport@, copy@),
{
    match transport {
        Transport::Preset(client) => Transport::Preset(client.clone()),
        Transport::Fresh(config) => Transport::Fresh(
            TransportConfig {
                user_agent: config.user_agent.clone(),
                pool_max_idle_per_host: config.pool_max_idle_per_host,
                read_timeout: config.read_timeout,
                built_in_root_certs: config.built_in_root_certs,
                trust: config.trust,
            },
        ),
    }
}

fn clone_layers<M: Clone>(layers: &Vec<Layer<M>>) -> (copy: Vec<Layer<M>>)
    ensures
        copy@.len() == layers@.len(),
        forall|i: int| 0 <= i < copy@.len() ==> is_layer_clone(layers@[i], #[trigger] copy@[i]),
{
    let mut copy: Vec<Layer<M>> = Vec::new();
    let mut i: usize = 0;
    while i < layers.len()
        invariant
            i <= layers@.len(),
            copy@.len() == i,
            forall|j: int| 0 <= j < i ==> is_layer_clone(layers@[j], #[trigger] copy@[j]),
        decreases layers@.len() - i,
    {
        let layer = match &layers[i] {
            Layer::OfflineEnforcement => Layer::OfflineEnforcement,
            Layer::Configured(inner) => Layer::Configured(clone_middleware(inner)),
        };
        copy.push(layer);
        i = i + 1;
    }
    copy
}

/// What a client holds.
pub struct BaseClientView<C, M> {
    pub transport: TransportView<C>,
    pub layers: Seq<Layer<M>>,
    pub connectivity: Connectivity,
    pub timeout: u64,
}

/// A client: a transport with its layers, whether the network may be used,
/// and the timeout of a request. Nothing in it changes once it is built.
#[derive(Debug)]
pub struct BaseClient<C, M> {
    client: ComposedClient<C, M>,
    connectivity: Connectivity,
    timeout: u64,
}

impl<C, M> View for BaseClient<C, M> {
    type V = BaseClientView<C, M>;

    closed spec fn view(&self) -> BaseClientView<C, M> {
        BaseClientView {
            transport: self.client.transport@,
            layers: self.client.layers@,
            connectivity: self.connectivity,
            timeout: self.timeout,
        }
    }
}

impl<C: Clone, M: Clone> Clone for BaseClient<C, M> {
    fn clone(&self) -> (copy: Self)
        ensures
            is_client_clone(self@, copy@),
    {
        proof {
            use_type_invariant(self);
        }
        let transport = clone_transport(&self.client.transport);
        let layers = clone_layers(&self.client.layers);
        proof {
            if rejects_all(self.client.layers@) {
                let k = choose|k: int|
                    0 <= k < self.client.layers@.len()
                        && #[trigger] self.client.layers@[k] is OfflineEnforcement;
                assert(layers@[k] is OfflineEnforcement);
            }
            if rejects_all(layers@) {
                let k = choose|k: int| 0 <= k < layers@.len() && #[trigger] layers@[k] is OfflineEnforcement;
                assert(self.client.layers@[k] is OfflineEnforcement);
            }
        }
        BaseClient {
            client: ComposedClient { transport, layers },
            connectivity: self.connectivity,
            timeout: self.timeout,
        }
    }
}

impl<C, M> BaseClient<C, M> {
    /// Offline some layer rejects every request; online none does.
    #[verifier::type_invariant]
    spec fn offline_is_enforced(&self) -> bool {
        (self.connectivity == Connectivity::Offline) == rejects_all(self.client.layers@)
    }

    /// Decides on a request for `url` before anything is sent, as the
    /// transport with its layers does: offline it is rejected, online it is
    /// handed on.
    pub fn intercept(&self, url: &str) -> (r: Result<(), OfflineError>)
        ensures
            r is Err <==> self@.connectivity == Connectivity::Offline,
            r matches Err(e) ==> e@ == url@,
    {
        proof {
            use_type_invariant(self);
        }
        self.client.intercept(url)
    }

    /// The transport and its layers.
    pub fn client(&self) -> (client: &ComposedClient<C, M>)
        ensures
            client.transport@ == self@.transport,
            client.layers@ == self@.layers,
    {
        &self.client
    }

    /// The timeout of a request, in seconds.
    pub fn timeout(&self) -> (timeout: u64)
        ensures
            timeout == self@.timeout,
    {
        self.timeout
    }

    /// Whether the network may be used.
    pub fn connectivity(&self) -> (connectivity: Connectivity)
        ensures
            connectivity == self@.connectivity,
    {
        self.connectivity
    }
}

} // verus!
