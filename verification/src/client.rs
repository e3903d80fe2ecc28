use vstd::prelude::*;

verus! {

/// The DER certificates held by the CERTIFICATE sections of a PEM document,
/// in order.
pub uninterp spec fn pem_certificates(pem: Seq<u8>) -> Seq<Seq<u8>>;

/// The PKCS#8 keys held by the PRIVATE KEY sections of a PEM document, in
/// order.
pub uninterp spec fn pem_pkcs8_keys(pem: Seq<u8>) -> Seq<Seq<u8>>;

/// Relies on rustls_pemfile::certs: it yields the DER bytes of each
/// well-formed CERTIFICATE section of the PEM input, in order, skipping
/// sections of other kinds; a malformed section yields an error, which is
/// dropped here as the configuration surface counts successes only.
#[verifier::external_body]
fn decode_pem_certificates(pem: &Vec<u8>) -> (r: Vec<Vec<u8>>)
    ensures
        der_list_view(r) == pem_certificates(pem@),
{
    rustls_pemfile::certs(&mut pem.as_slice())
        .filter_map(Result::ok)
        .map(|c| c.as_ref().to_vec())
        .collect()
}

/// Relies on rustls_pemfile::pkcs8_private_keys: it yields the DER bytes of
/// each well-formed PRIVATE KEY section of the PEM input, in order, skipping
/// sections of other kinds; a malformed section yields an error, dropped as
/// above.
#[verifier::external_body]
fn decode_pem_pkcs8_keys(pem: &Vec<u8>) -> (r: Vec<Vec<u8>>)
    ensures
        der_list_view(r) == pem_pkcs8_keys(pem@),
{
    rustls_pemfile::pkcs8_private_keys(&mut pem.as_slice())
        .filter_map(Result::ok)
        .map(|k| k.secret_pkcs8_der().to_vec())
        .collect()
}

/// Mathematical image of a list of DER-encoded blobs.
pub open spec fn der_list_view(v: Vec<Vec<u8>>) -> Seq<Seq<u8>> {
    v@.map_values(|c: Vec<u8>| c@)
}

/// How the sealed client verifies server certificates. Exactly one applies,
/// decided by `build_client` under the priority: custom callback, then
/// skip-verification, then a trust store.
#[derive(Clone, Copy, Debug, PartialEq, Eq, Structural)]
pub enum VerifierChoice {
    /// A caller-supplied synchronous callback decides each connection.
    CustomHandler,
    /// Every server certificate is accepted.
    SkipVerification,
    /// A trust store decides: the caller's root certificates when any were
    /// added, the built-in defaults otherwise; with a client certificate and
    /// key for mutual TLS when both were configured.
    TrustStore { custom_roots: bool, client_auth: bool },
}

/// Which channel carries the requests of a sealed client. The two exclude
/// each other: a configured local-socket target routes everything over that
/// channel instead of TCP and TLS.
#[derive(Clone, Copy, Debug, PartialEq, Eq, Structural)]
pub enum TransportChoice {
    LocalSocket,
    TcpTls,
}

/// Connection configuration for one client, each field write-once or
/// overwrite-before-build, and the decisions `build_client` seals it into.
/// The actual connector, TLS stack and callbacks live with the caller; the
/// decisions recorded here say exactly how they must be assembled.
pub struct YahaNativeContext {
    pub built: bool,
    pub skip_certificate_verification: Option<bool>,
    pub has_verification_handler: bool,
    pub root_certificates: Option<Vec<Vec<u8>>>,
    pub override_server_name: Option<String>,
    pub client_auth_certificates: Option<Vec<Vec<u8>>>,
    pub client_auth_key: Option<Vec<u8>>,
    pub connect_timeout_millis: Option<u64>,
    pub pool_idle_timeout_millis: Option<u64>,
    pub pool_max_idle_per_host: Option<usize>,
    pub http2_only: Option<bool>,
    pub http2_initial_stream_window_size: Option<u32>,
    pub http2_initial_connection_window_size: Option<u32>,
    pub http2_adaptive_window: Option<bool>,
    pub http2_max_frame_size: Option<u32>,
    pub http2_keep_alive_interval_millis: Option<u64>,
    pub http2_keep_alive_timeout_millis: Option<u64>,
    pub http2_keep_alive_while_idle: Option<bool>,
    pub http2_max_concurrent_reset_streams: Option<usize>,
    pub http2_max_send_buf_size: Option<usize>,
    pub http2_initial_max_send_streams: Option<usize>,
    pub unix_socket_path: Option<String>,
    pub verifier_choice: Option<VerifierChoice>,
    pub transport: Option<TransportChoice>,
}

/// The verifier `build_client` seals the configuration into: a custom
/// callback wins over skip-verification, which wins over the trust store.
pub open spec fn chosen_verifier(c: YahaNativeContext) -> VerifierChoice {
    if c.has_verification_handler {
        VerifierChoice::CustomHandler
    } else if c.skip_certificate_verification == Some(true) {
        VerifierChoice::SkipVerification
    } else {
        VerifierChoice::TrustStore {
            custom_roots: c.root_certificates is Some,
            client_auth: c.client_auth_certificates is Some && c.client_auth_key is Some,
        }
    }
}

/// The transport `build_client` seals the configuration into.
pub open spec fn chosen_transport(c: YahaNativeContext) -> TransportChoice {
    if c.unix_socket_path is Some {
        TransportChoice::LocalSocket
    } else {
        TransportChoice::TcpTls
    }
}

impl YahaNativeContext {
    /// A fresh client context: nothing configured, nothing built.
    pub fn new() -> (r: Self)
        ensures
            !r.built,
            r.skip_certificate_verification is None,
            !r.has_verification_handler,
            r.root_certificates is None,
            r.override_server_name is None,
            r.client_auth_certificates is None,
            r.client_auth_key is None,
            r.connect_timeout_millis is None,
            r.pool_idle_timeout_millis is None,
            r.pool_max_idle_per_host is None,
            r.http2_only is None,
            r.http2_initial_stream_window_size is None,
            r.http2_initial_connection_window_size is None,
            r.http2_adaptive_window is None,
            r.http2_max_frame_size is None,
            r.http2_keep_alive_interval_millis is None,
            r.http2_keep_alive_timeout_millis is None,
            r.http2_keep_alive_while_idle is None,
            r.http2_max_concurrent_reset_streams is None,
            r.http2_max_send_buf_size is None,
            r.http2_initial_max_send_streams is None,
            r.unix_socket_path is None,
            r.verifier_choice is None,
            r.transport is None,
    {
        YahaNativeContext {
            built: false,
            skip_certificate_verification: None,
            has_verification_handler: false,
            root_certificates: None,
            override_server_name: None,
            client_auth_certificates: None,
            client_auth_key: None,
            connect_timeout_millis: None,
            pool_idle_timeout_millis: None,
            pool_max_idle_per_host: None,
            http2_only: None,
            http2_initial_stream_window_size: None,
            http2_initial_connection_window_size: None,
            http2_adaptive_window: None,
            http2_max_frame_size: None,
            http2_keep_alive_interval_millis: None,
            http2_keep_alive_timeout_millis: None,
            http2_keep_alive_while_idle: None,
            http2_max_concurrent_reset_streams: None,
            http2_max_send_buf_size: None,
            http2_initial_max_send_streams: None,
            unix_socket_path: None,
            verifier_choice: None,
            transport: None,
        }
    }

    /// Decode the PEM document and append every certificate that parsed to
    /// the trust list, reporting how many did. A partial or empty count is
    /// the only signal for malformed material; nothing fails hard.
    pub fn config_add_root_certificates(&mut self, root_certs: &Vec<u8>) -> (r: usize)
        ensures
            r as nat == pem_certificates(root_certs@).len(),
            final(self).root_certificates matches Some(rc) && der_list_view(rc) == match old(self).root_certificates {
                Some(o) => der_list_view(o),
                None => Seq::empty(),
            } + pem_certificates(root_certs@),
            *final(self) == (Self {
                root_certificates: final(self).root_certificates,
                ..*old(self)
            }),
    {
        let mut certs = decode_pem_certificates(root_certs);
        let count = certs.len();
        let mut store: Vec<Vec<u8>> = match self.root_certificates.take() {
            Some(s) => s,
            None => Vec::new(),
        };
        let ghost old_store_view = der_list_view(store);
        store.append(&mut certs);
        proof {
            assert(der_list_view(store) =~= old_store_view + pem_certificates(root_certs@));
        }
        self.root_certificates = Some(store);
        count
    }

    /// Record the server name to present during the TLS handshake in place of
    /// the request's host; only the first recorded name takes effect.
    pub fn config_add_override_server_name(&mut self, override_server_name: String)
        ensures
            old(self).override_server_name is Some ==> *final(self) == *old(self),
            old(self).override_server_name is None ==> *final(self) == (Self {
                override_server_name: Some(override_server_name),
                ..*old(self)
            }),
    {
        if self.override_server_name.is_none() {
            self.override_server_name = Some(override_server_name);
        }
    }

    /// Decode the PEM document and, when at least one certificate parsed and
    /// none were recorded before, record the list as the client certificate
    /// chain for mutual TLS; report how many parsed.
    pub fn config_add_client_auth_certificates(&mut self, auth_certs: &Vec<u8>) -> (r: usize)
        ensures
            r as nat == pem_certificates(auth_certs@).len(),
            old(self).client_auth_certificates is Some || pem_certificates(auth_certs@).len()
                == 0 ==> *final(self) == *old(self),
            old(self).client_auth_certificates is None && pem_certificates(auth_certs@).len()
                > 0 ==> (final(self).client_auth_certificates matches Some(c) && der_list_view(c)
                == pem_certificates(auth_certs@) && *final(self) == (Self {
                client_auth_certificates: final(self).client_auth_certificates,
                ..*old(self)
            })),
    {
        let certs = decode_pem_certificates(auth_certs);
        let count = certs.len();
        if count > 0 && self.client_auth_certificates.is_none() {
            self.client_auth_certificates = Some(certs);
        }
        count
    }

    /// Decode the PEM document and, when at least one PKCS#8 key parsed and
    /// none was recorded before, record the first as the client key for
    /// mutual TLS; report how many parsed.
    pub fn config_add_client_auth_key(&mut self, auth_key: &Vec<u8>) -> (r: usize)
        ensures
            r as nat == pem_pkcs8_keys(auth_key@).len(),
            old(self).client_auth_key is Some || pem_pkcs8_keys(auth_key@).len() == 0 ==> *final(self) == *old(self),
            old(self).client_auth_key is None && pem_pkcs8_keys(auth_key@).len() > 0 ==> (final(self).client_auth_key matches Some(k) && k@ == pem_pkcs8_keys(auth_key@)[0] && *final(self)
                == (Self { client_auth_key: final(self).client_auth_key, ..*old(self) })),
    {
        let mut keys = decode_pem_pkcs8_keys(auth_key);
        let count = keys.len();
        if count > 0 && self.client_auth_key.is_none() {
            let first = keys.remove(0);
            self.client_auth_key = Some(first);
        }
        count
    }

    /// Accept every server certificate without verification (unless a custom
    /// verification callback is also configured, which takes priority).
    pub fn config_skip_certificate_verification(&mut self, val: bool)
        ensures
            *final(self) == (Self { skip_certificate_verification: Some(val), ..*old(self) }),
    {
        self.skip_certificate_verification = Some(val);
    }

    /// Record whether a caller-supplied certificate-verification callback is
    /// present; the callback itself stays with the caller, who consults the
    /// sealed `VerifierChoice` to wire it in.
    pub fn config_set_server_certificate_verification_handler(&mut self, present: bool)
        ensures
            *final(self) == (Self { has_verification_handler: present, ..*old(self) }),
    {
        self.has_verification_handler = present;
    }

    /// Record the connect timeout; only the first recorded value takes
    /// effect.
    pub fn config_connect_timeout(&mut self, timeout_milliseconds: u64)
        ensures
            old(self).connect_timeout_millis is Some ==> *final(self) == *old(self),
            old(self).connect_timeout_millis is None ==> *final(self) == (Self {
                connect_timeout_millis: Some(timeout_milliseconds),
                ..*old(self)
            }),
    {
        if self.connect_timeout_millis.is_none() {
            self.connect_timeout_millis = Some(timeout_milliseconds);
        }
    }

    /// Route every request of this context over the local socket at `path`
    /// instead of TCP and TLS.
    pub fn config_unix_domain_socket_path(&mut self, path: String)
        requires
            !old(self).built,
        ensures
            *final(self) == (Self { unix_socket_path: Some(path), ..*old(self) }),
    {
        self.unix_socket_path = Some(path);
    }

    /// Set how long an idle pooled connection is kept. The builder must not
    /// have been consumed: a setter after `build_client` is a caller error.
    pub fn config_pool_idle_timeout(&mut self, val_milliseconds: u64)
        requires
            !old(self).built,
        ensures
            *final(self) == (Self { pool_idle_timeout_millis: Some(val_milliseconds), ..*old(self) }),
    {
        self.pool_idle_timeout_millis = Some(val_milliseconds);
    }

    /// Set the maximum number of idle pooled connections per host; caller
    /// error after `build_client`.
    pub fn config_pool_max_idle_per_host(&mut self, max_idle: usize)
        requires
            !old(self).built,
        ensures
            *final(self) == (Self { pool_max_idle_per_host: Some(max_idle), ..*old(self) }),
    {
        self.pool_max_idle_per_host = Some(max_idle);
    }

    /// Restrict the client to HTTP/2; caller error after `build_client`.
    pub fn config_http2_only(&mut self, val: bool)
        requires
            !old(self).built,
        ensures
            *final(self) == (Self { http2_only: Some(val), ..*old(self) }),
    {
        self.http2_only = Some(val);
    }

    /// Set the HTTP/2 initial stream window size; caller error after
    /// `build_client`.
    pub fn config_http2_initial_stream_window_size(&mut self, val: u32)
        requires
            !old(self).built,
        ensures
            *final(self) == (Self { http2_initial_stream_window_size: Some(val), ..*old(self) }),
    {
        self.http2_initial_stream_window_size = Some(val);
    }

    /// Set the HTTP/2 initial connection window size; caller error after
    /// `build_client`.
    pub fn config_http2_initial_connection_window_size(&mut self, val: u32)
        requires
            !old(self).built,
        ensures
            *final(self) == (Self {
                http2_initial_connection_window_size: Some(val),
                ..*old(self)
            }),
    {
        self.http2_initial_connection_window_size = Some(val);
    }

    /// Let the HTTP/2 flow-control windows adapt; caller error after
    /// `build_client`.
    pub fn config_http2_adaptive_window(&mut self, val: bool)
        requires
            !old(self).built,
        ensures
            *final(self) == (Self { http2_adaptive_window: Some(val), ..*old(self) }),
    {
        self.http2_adaptive_window = Some(val);
    }

    /// Set the largest HTTP/2 frame this client accepts; caller error after
    /// `build_client`.
    pub fn config_http2_max_frame_size(&mut self, val: u32)
        requires
            !old(self).built,
        ensures
            *final(self) == (Self { http2_max_frame_size: Some(val), ..*old(self) }),
    {
        self.http2_max_frame_size = Some(val);
    }

    /// Set the HTTP/2 keep-alive ping interval; caller error after
    /// `build_client`.
    pub fn config_http2_keep_alive_interval(&mut self, interval_milliseconds: u64)
        requires
            !old(self).built,
        ensures
            *final(self) == (Self {
                http2_keep_alive_interval_millis: Some(interval_milliseconds),
                ..*old(self)
            }),
    {
        self.http2_keep_alive_interval_millis = Some(interval_milliseconds);
    }

    /// Set how long an unanswered keep-alive ping is tolerated; caller error
    /// after `build_client`.
    pub fn config_http2_keep_alive_timeout(&mut self, timeout_milliseconds: u64)
        requires
            !old(self).built,
        ensures
            *final(self) == (Self {
                http2_keep_alive_timeout_millis: Some(timeout_milliseconds),
                ..*old(self)
            }),
    {
        self.http2_keep_alive_timeout_millis = Some(timeout_milliseconds);
    }

    /// Send keep-alive pings on idle connections too; caller error after
    /// `build_client`.
    pub fn config_http2_keep_alive_while_idle(&mut self, val: bool)
        requires
            !old(self).built,
        ensures
            *final(self) == (Self { http2_keep_alive_while_idle: Some(val), ..*old(self) }),
    {
        self.http2_keep_alive_while_idle = Some(val);
    }

    /// Set the maximum number of concurrently reset HTTP/2 streams; caller
    /// error after `build_client`.
    pub fn config_http2_max_concurrent_reset_streams(&mut self, max: usize)
        requires
            !old(self).built,
        ensures
            *final(self) == (Self { http2_max_concurrent_reset_streams: Some(max), ..*old(self) }),
    {
        self.http2_max_concurrent_reset_streams = Some(max);
    }

    /// Set the maximum HTTP/2 send buffer size; caller error after
    /// `build_client`.
    pub fn config_http2_max_send_buf_size(&mut self, max: usize)
        requires
            !old(self).built,
        ensures
            *final(self) == (Self { http2_max_send_buf_size: Some(max), ..*old(self) }),
    {
        self.http2_max_send_buf_size = Some(max);
    }

    /// Set the initial maximum number of concurrent send streams; caller
    /// error after `build_client`.
    pub fn config_http2_initial_max_send_streams(&mut self, initial: usize)
        requires
            !old(self).built,
        ensures
            *final(self) == (Self { http2_initial_max_send_streams: Some(initial), ..*old(self) }),
    {
        self.http2_initial_max_send_streams = Some(initial);
    }

    /// Seal the configuration: decide the verifier by the fixed priority and
    /// the transport by the presence of a local-socket target, and consume
    /// the builder. Building twice is a caller error.
    pub fn build_client(&mut self)
        requires
            !old(self).built,
        ensures
            *final(self) == (Self {
                built: true,
                verifier_choice: Some(chosen_verifier(*old(self))),
                transport: Some(chosen_transport(*old(self))),
                ..*old(self)
            }),
    {
        let verifier = if self.has_verification_handler {
            VerifierChoice::CustomHandler
        } else {
            match self.skip_certificate_verification {
                Some(true) => VerifierChoice::SkipVerification,
                _ => VerifierChoice::TrustStore {
                    custom_roots: self.root_certificates.is_some(),
                    client_auth: self.client_auth_certificates.is_some()
                        && self.client_auth_key.is_some(),
                },
            }
        };
        let transport = if self.unix_socket_path.is_some() {
            TransportChoice::LocalSocket
        } else {
            TransportChoice::TcpTls
        };
        self.verifier_choice = Some(verifier);
        self.transport = Some(transport);
        self.built = true;
    }
}

} // verus!
