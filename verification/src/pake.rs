//! The password-authenticated key exchange between a controller and a host: a
//! one-use registration of the host's secret, and the login of a controller that
//! was told the secret.
//!
//! The states of the exchange are held as the bytes that `opaque-ke` serializes
//! them to.

use vstd::prelude::*;

verus! {

/// Bytes of the first login message.
pub const KE1_LEN: usize = 96;

/// Bytes of the answer to it.
pub const KE2_LEN: usize = 320;

/// Bytes of the last login message.
pub const KE3_LEN: usize = 64;

/// Bytes of a session key.
pub const SESSION_KEY_LEN: usize = 64;

/// Bytes of the state that a host keeps between its two login steps: the session
/// key, and the last message that it expects.
pub const SERVER_STATE_LEN: usize = 128;

/// Bytes of a password file.
pub const PASSWORD_FILE_LEN: usize = 192;

/// The longest context of a login that a host keeps.
pub const MAX_CONTEXT_LEN: usize = 256;

/// The longest password, identifier or context that can enter an exchange: its length
/// is framed in two bytes.
pub const MAX_FRAMED_LEN: usize = 65_535;

/// Memory of the key stretching, in kibibytes.
pub const ARGON2_MEMORY: u32 = 19_456;

/// Passes of the key stretching.
pub const ARGON2_PASSES: u32 = 2;

/// Lanes of the key stretching.
pub const ARGON2_LANES: u32 = 1;

/// OPAQUE failures are deliberately collapsed at the product boundary.
#[derive(Debug, Clone, Copy, PartialEq, Eq, Structural)]
pub enum OpaquePakeError {
    Rejected,
    WireSize,
}

impl OpaquePakeError {
    /// The text of the message.
    pub open spec fn text(self) -> Seq<char> {
        match self {
            OpaquePakeError::Rejected => "the OPAQUE exchange was rejected"@,
            OpaquePakeError::WireSize => {
                "the configured OPAQUE wire size does not match the selected ciphersuite"@
            },
        }
    }

    /// The message shown for the failure.
    pub fn message(&self) -> (text: String)
        ensures
            text@ == self.text(),
    {
        let text = match self {
            OpaquePakeError::Rejected => "the OPAQUE exchange was rejected",
            OpaquePakeError::WireSize => {
                "the configured OPAQUE wire size does not match the selected ciphersuite"
            },
        };
        text.to_owned()
    }
}

/// The identity of a peer, as it stands on the wire.
#[derive(Debug)]
pub struct PeerIdBytes {
    pub bytes: Vec<u8>,
}

impl PeerIdBytes {
    /// A copy of the identity.
    pub fn copied(&self) -> (copy: Self)
        ensures
            copy.bytes@ == self.bytes@,
    {
        PeerIdBytes { bytes: copy_bytes(self.bytes.as_slice()) }
    }
}

/// The secret of a connection code.
pub struct PakeSecret {
    pub bytes: [u8; 8],
}

fn copy_bytes(bytes: &[u8]) -> (copy: Vec<u8>)
    ensures
        copy@ == bytes@,
{
    let mut copy: Vec<u8> = Vec::new();
    let mut at: usize = 0;
    while at < bytes.len()
        invariant
            at <= bytes@.len(),
            copy@ == bytes@.take(at as int),
        decreases bytes@.len() - at,
    {
        assert(bytes@.take(at + 1) =~= bytes@.take(at as int).push(bytes@[at as int]));
        copy.push(bytes[at]);
        at += 1;
    }
    assert(bytes@.take(bytes@.len() as int) =~= bytes@);
    copy
}

/// The array that holds exactly these bytes, if there are as many.
pub fn exact_array<const LENGTH: usize>(bytes: &[u8]) -> (array: Result<
    [u8; LENGTH],
    OpaquePakeError,
>)
    ensures
        match array {
            Ok(array) => bytes@.len() == LENGTH && array@ == bytes@,
            Err(error) => bytes@.len() != LENGTH && error == OpaquePakeError::WireSize,
        },
{
    if bytes.len() != LENGTH {
        return Err(OpaquePakeError::WireSize);
    }
    let mut array: [u8; LENGTH] = [0; LENGTH];
    let mut at: usize = 0;
    while at < LENGTH
        invariant
            at <= LENGTH,
            bytes@.len() == LENGTH,
            forall|i: int| 0 <= i < at ==> array@[i] == bytes@[i],
        decreases LENGTH - at,
    {
        array[at] = bytes[at];
        at += 1;
    }
    assert(array@ =~= bytes@);
    Ok(array)
}

// ---------------------------------------------------------------------------
// The outside exchange
// ---------------------------------------------------------------------------

/// Declares the key-stretching function of the suite.
#[verifier::external_type_specification]
#[verifier::external_body]
pub struct ExArgon2<'key>(opaque_ke::argon2::Argon2<'key>);

/// Declares the group of the suite.
#[verifier::external_type_specification]
#[verifier::external_body]
pub struct ExRistretto255(opaque_ke::Ristretto255);

/// The ciphersuite, over its key exchange.
struct YonderSuite<K> {
    key_exchange: core::marker::PhantomData<K>,
}

impl<
    K: opaque_ke::key_exchange::KeyExchange<Group = opaque_ke::Ristretto255>,
> opaque_ke::ciphersuite::CipherSuite for YonderSuite<K> {
    type OprfCs = opaque_ke::Ristretto255;

    type KeyExchange = K;

    type Ksf = opaque_ke::argon2::Argon2<'static>;
}

/// The ciphersuite with its key exchange.
type Suite = YonderSuite<opaque_ke::TripleDh<opaque_ke::Ristretto255, sha2::Sha512>>;

/// A server setup can come of `ServerSetup::new`.
pub uninterp spec fn setup_made(setup: Seq<u8>) -> bool;

/// A client state and a request can come of `ClientRegistration::start` on a
/// password.
pub uninterp spec fn registration_begun(
    password: Seq<u8>,
    state: Seq<u8>,
    request: Seq<u8>,
) -> bool;

/// The response of `ServerRegistration::start` to a request, for a setup and a
/// credential identifier.
pub uninterp spec fn registration_answer(
    setup: Seq<u8>,
    request: Seq<u8>,
    credential: Seq<u8>,
) -> Option<Seq<u8>>;

/// An upload can come of `ClientRegistration::finish` on a state, a password and a
/// response, for a server identifier and the cost of the key stretching.
pub uninterp spec fn registration_closed(
    state: Seq<u8>,
    password: Seq<u8>,
    response: Seq<u8>,
    server: Seq<u8>,
    memory: u32,
    passes: u32,
    lanes: u32,
    upload: Seq<u8>,
) -> bool;

/// A client state and a request can come of `ClientLogin::start` on a password.
pub uninterp spec fn login_begun(password: Seq<u8>, state: Seq<u8>, request: Seq<u8>) -> bool;

/// A server state and a response can come of `ServerLogin::start` on a setup, a
/// password file and a request, for a credential identifier, which is also the
/// server identifier, and a context.
pub uninterp spec fn login_answered(
    setup: Seq<u8>,
    file: Seq<u8>,
    request: Seq<u8>,
    credential: Seq<u8>,
    context: Seq<u8>,
    state: Seq<u8>,
    response: Seq<u8>,
) -> bool;

/// The last message and the session key of `ClientLogin::finish` on a state, a
/// password and a response, for a context, a server identifier and the cost of the
/// key stretching.
pub uninterp spec fn login_closed(
    state: Seq<u8>,
    password: Seq<u8>,
    response: Seq<u8>,
    context: Seq<u8>,
    server: Seq<u8>,
    memory: u32,
    passes: u32,
    lanes: u32,
) -> Option<(Seq<u8>, Seq<u8>)>;

/// A setup and a password file can come of a registration of a password for a
/// server.
pub open spec fn registered(
    setup: Seq<u8>,
    file: Seq<u8>,
    password: Seq<u8>,
    server: Seq<u8>,
    memory: u32,
    passes: u32,
    lanes: u32,
) -> bool {
    exists|state: Seq<u8>, request: Seq<u8>, response: Seq<u8>| #[trigger]
        registration_begun(password, state, request) && registration_answer(setup, request, server)
            == Some(response) && #[trigger] registration_closed(
            state,
            password,
            response,
            server,
            memory,
            passes,
            lanes,
            file,
        )
}

/// No upload can come of `ClientRegistration::finish` on these arguments.
pub open spec fn registration_refused(
    state: Seq<u8>,
    password: Seq<u8>,
    response: Seq<u8>,
    server: Seq<u8>,
    memory: u32,
    passes: u32,
    lanes: u32,
) -> bool {
    forall|upload: Seq<u8>|
        !#[trigger] registration_closed(
            state,
            password,
            response,
            server,
            memory,
            passes,
            lanes,
            upload,
        )
}

/// No answer can come of `ServerLogin::start` on these arguments.
pub open spec fn login_refused(
    setup: Seq<u8>,
    file: Seq<u8>,
    request: Seq<u8>,
    credential: Seq<u8>,
    context: Seq<u8>,
) -> bool {
    forall|state: Seq<u8>, response: Seq<u8>|
        !#[trigger] login_answered(setup, file, request, credential, context, state, response)
}

/// `ServerSetup::new` of `opaque_ke`, serialized: a fresh setup.
#[verifier::external_body]
fn new_setup() -> (setup: Vec<u8>)
    ensures
        setup_made(setup@),
{
    opaque_ke::ServerSetup::<Suite>::new(&mut rand::rngs::OsRng)
        .serialize()
        .to_vec()
}

/// `ClientRegistration::start` of `opaque_ke`, with its results serialized: a
/// client state and a request that can come of the password. It fails only on a
/// password that is empty or longer than 65535 bytes.
#[verifier::external_body]
fn begin_registration(password: &[u8]) -> (begun: Option<(Vec<u8>, Vec<u8>)>)
    ensures
        match begun {
            Some((state, request)) => registration_begun(password@, state@, request@),
            None => password@.len() == 0 || password@.len() > MAX_FRAMED_LEN,
        },
{
    opaque_ke::ClientRegistration::<Suite>::start(&mut rand::rngs::OsRng, password)
        .ok()
        .map(|begun| (begun.state.serialize().to_vec(), begun.message.serialize().to_vec()))
}

/// `ServerRegistration::start` of `opaque_ke` on a serialized setup and request,
/// with its result serialized, which depends on its arguments alone.
#[verifier::external_body]
fn answer_registration(setup: &[u8], request: &[u8], credential: &[u8]) -> (response: Option<
    Vec<u8>,
>)
    ensures
        match response {
            Some(response) => registration_answer(setup@, request@, credential@) == Some(response@),
            None => registration_answer(setup@, request@, credential@) is None,
        },
{
    let setup = opaque_ke::ServerSetup::<Suite>::deserialize(setup).ok()?;
    let request = opaque_ke::RegistrationRequest::deserialize(request).ok()?;
    let answer = opaque_ke::ServerRegistration::start(&setup, request, credential).ok()?;
    Some(answer.message.serialize().to_vec())
}

/// `ClientRegistration::finish` of `opaque_ke` on a serialized state and response,
/// with its result serialized: an upload that can come of them, for the server
/// identifier and the cost of Argon2id. Whether it refuses depends on its arguments
/// alone: what it draws by chance is a nonce, from which it derives a key. (A nonce
/// of which 256 derived scalars in a row are zero is left out of account.)
#[verifier::external_body]
fn close_registration(
    state: &[u8],
    password: &[u8],
    response: &[u8],
    server: &[u8],
    memory: u32,
    passes: u32,
    lanes: u32,
) -> (upload: Option<Vec<u8>>)
    ensures
        match upload {
            Some(upload) => upload@.len() == PASSWORD_FILE_LEN && registration_closed(
                state@,
                password@,
                response@,
                server@,
                memory,
                passes,
                lanes,
                upload@,
            ),
            None => registration_refused(
                state@,
                password@,
                response@,
                server@,
                memory,
                passes,
                lanes,
            ),
        },
{
    let state = opaque_ke::ClientRegistration::<Suite>::deserialize(state).ok()?;
    let response = opaque_ke::RegistrationResponse::deserialize(response).ok()?;
    let cost = opaque_ke::argon2::Params::new(memory, passes, lanes, None).ok()?;
    let ksf = opaque_ke::argon2::Argon2::new(
        opaque_ke::argon2::Algorithm::Argon2id,
        opaque_ke::argon2::Version::V0x13,
        cost,
    );
    let identifiers = opaque_ke::Identifiers { client: None, server: Some(server) };
    let parameters = opaque_ke::ClientRegistrationFinishParameters::new(identifiers, Some(&ksf));
    let closed = state.finish(&mut rand::rngs::OsRng, password, response, parameters).ok()?;
    Some(closed.message.serialize().to_vec())
}

/// `ServerRegistration::finish` of `opaque_ke` on a serialized upload, with its
/// result serialized: the password file is the upload. An upload that came of
/// `ClientRegistration::finish` is accepted.
#[verifier::external_body]
fn record_registration(upload: &[u8]) -> (file: Option<Vec<u8>>)
    requires
        upload@.len() == PASSWORD_FILE_LEN,
    ensures
        match file {
            Some(file) => file@ == upload@,
            None => true,
        },
        forall|
            state: Seq<u8>,
            password: Seq<u8>,
            response: Seq<u8>,
            server: Seq<u8>,
            memory: u32,
            passes: u32,
            lanes: u32,
        | #[trigger]
            registration_closed(
                state,
                password,
                response,
                server,
                memory,
                passes,
                lanes,
                upload@,
            ) ==> file is Some,
{
    let upload = opaque_ke::RegistrationUpload::<Suite>::deserialize(upload).ok()?;
    Some(opaque_ke::ServerRegistration::finish(upload).serialize().to_vec())
}

/// `ClientLogin::start` of `opaque_ke`, with its results serialized: a client state
/// and a request that can come of the password. It fails only on a password that is
/// empty or longer than 65535 bytes.
#[verifier::external_body]
fn begin_login(password: &[u8]) -> (begun: Option<(Vec<u8>, Vec<u8>)>)
    ensures
        match begun {
            Some((state, request)) => request@.len() == KE1_LEN && login_begun(
                password@,
                state@,
                request@,
            ),
            None => password@.len() == 0 || password@.len() > MAX_FRAMED_LEN,
        },
{
    opaque_ke::ClientLogin::<Suite>::start(&mut rand::rngs::OsRng, password)
        .ok()
        .map(|begun| (begun.state.serialize().to_vec(), begun.message.serialize().to_vec()))
}

/// `ServerLogin::start` of `opaque_ke` on a serialized setup, password file and
/// request, with its results serialized: a server state and a response that can
/// come of them, for the credential identifier, which is also the server
/// identifier, and the context. Whether it refuses depends on its arguments alone.
/// Where the file registers a password under this setup and identifier, and the
/// request begins a login with the same password, it answers, for every context
/// whose length can be framed.
#[verifier::external_body]
fn answer_login(setup: &[u8], file: &[u8], request: &[u8], credential: &[u8], context: &[u8]) -> (
    answered: Option<(Vec<u8>, Vec<u8>)>)
    ensures
        match answered {
            Some((state, response)) => state@.len() == SERVER_STATE_LEN && response@.len()
                == KE2_LEN && login_answered(
                setup@,
                file@,
                request@,
                credential@,
                context@,
                state@,
                response@,
            ),
            None => login_refused(setup@, file@, request@, credential@, context@),
        },
        forall|password: Seq<u8>, state: Seq<u8>, memory: u32, passes: u32, lanes: u32| #[trigger]
            registered(setup@, file@, password, credential@, memory, passes, lanes)
                && #[trigger] login_begun(password, state, request@) && context@.len()
                <= MAX_FRAMED_LEN ==> answered is Some,
{
    let setup = opaque_ke::ServerSetup::<Suite>::deserialize(setup).ok()?;
    let file = opaque_ke::ServerRegistration::deserialize(file).ok()?;
    let request = opaque_ke::CredentialRequest::deserialize(request).ok()?;
    let identifiers = opaque_ke::Identifiers { client: None, server: Some(credential) };
    let parameters = opaque_ke::ServerLoginParameters { context: Some(context), identifiers };
    let mut random = rand::rngs::OsRng;
    let answered = opaque_ke::ServerLogin::start(
        &mut random, &setup, Some(file), request, credential, parameters).ok()?;
    Some((answered.state.serialize().to_vec(), answered.message.serialize().to_vec()))
}

/// `ClientLogin::finish` of `opaque_ke` on a serialized state and response, with
/// its results serialized, which depends on its arguments alone (its random source
/// is not used by this key exchange). Where the response answers the request of
/// this very state, for a registration of the same password at the same cost and
/// under the same identifier and context, it succeeds, with the session key and the
/// last message that the host's state holds.
#[verifier::external_body]
fn close_login(
    state: &[u8],
    password: &[u8],
    response: &[u8],
    context: &[u8],
    server: &[u8],
    memory: u32,
    passes: u32,
    lanes: u32,
) -> (closed: Option<(Vec<u8>, Vec<u8>)>)
    ensures
        match closed {
            Some((finish, key)) => finish@.len() == KE3_LEN && key@.len() == SESSION_KEY_LEN
                && login_closed(
                state@,
                password@,
                response@,
                context@,
                server@,
                memory,
                passes,
                lanes,
            ) == Some((finish@, key@)),
            None => login_closed(
                state@,
                password@,
                response@,
                context@,
                server@,
                memory,
                passes,
                lanes,
            ) is None,
        },
        forall|setup: Seq<u8>, file: Seq<u8>, request: Seq<u8>, host: Seq<u8>|
            registered(setup, file, password@, server@, memory, passes, lanes)
                && #[trigger] login_begun(password@, state@, request) && #[trigger] login_answered(
                setup,
                file,
                request,
                server@,
                context@,
                host,
                response@,
            ) ==> match closed {
                Some((finish, key)) => finish@ == last_message(host) && key@ == session_key(host),
                None => false,
            },
{
    let state = opaque_ke::ClientLogin::<Suite>::deserialize(state).ok()?;
    let response = opaque_ke::CredentialResponse::deserialize(response).ok()?;
    let cost = opaque_ke::argon2::Params::new(memory, passes, lanes, None).ok()?;
    let ksf = opaque_ke::argon2::Argon2::new(
        opaque_ke::argon2::Algorithm::Argon2id,
        opaque_ke::argon2::Version::V0x13,
        cost,
    );
    let identifiers = opaque_ke::Identifiers { client: None, server: Some(server) };
    let parameters =
        opaque_ke::ClientLoginFinishParameters::new(Some(context), identifiers, Some(&ksf));
    let closed = state.finish(&mut rand::rngs::OsRng, password, response, parameters).ok()?;
    Some((closed.message.serialize().to_vec(), closed.session_key.to_vec()))
}

/// The session key that a host's login state holds.
pub open spec fn session_key(state: Seq<u8>) -> Seq<u8> {
    state.subrange(0, SESSION_KEY_LEN as int)
}

/// The last message that a host's login state expects.
pub open spec fn last_message(state: Seq<u8>) -> Seq<u8> {
    state.subrange(SESSION_KEY_LEN as int, SERVER_STATE_LEN as int)
}

/// `ServerLogin::finish` of `opaque_ke` on a serialized state and message: the
/// session key of the state, when the message is the one that the state expects.
/// This key exchange judges the identifier and the context in its first step.
#[verifier::external_body]
fn confirm_login(state: &[u8], finish: &[u8], context: &[u8], server: &[u8]) -> (key: Option<
    Vec<u8>,
>)
    requires
        state@.len() == SERVER_STATE_LEN,
        finish@.len() == KE3_LEN,
        context@.len() <= MAX_CONTEXT_LEN,
    ensures
        match key {
            Some(key) => finish@ == last_message(state@) && key@ == session_key(state@),
            None => finish@ != last_message(state@),
        },
{
    let state = opaque_ke::ServerLogin::<Suite>::deserialize(state).ok()?;
    let finish = opaque_ke::CredentialFinalization::deserialize(finish).ok()?;
    let identifiers = opaque_ke::Identifiers { client: None, server: Some(server) };
    let parameters = opaque_ke::ServerLoginParameters { context: Some(context), identifiers };
    Some(state.finish(finish, parameters).ok()?.session_key.to_vec())
}

/// `zeroize` of [`zeroize::Zeroize`]: every byte is overwritten with zero.
#[verifier::external_body]
pub(crate) fn wipe(bytes: &mut [u8])
    ensures
        final(bytes)@ == Seq::new(old(bytes)@.len(), |i: int| 0u8),
    no_unwind
{
    zeroize::Zeroize::zeroize(bytes)
}

// ---------------------------------------------------------------------------
// The states of an exchange
// ---------------------------------------------------------------------------

/// An in-memory, one-use password file and its private OPAQUE server setup.
pub struct OpaqueRegistration {
    setup: Vec<u8>,
    password_file: Vec<u8>,
    credential_id: PeerIdBytes,
}

impl OpaqueRegistration {
    /// The server setup.
    pub closed spec fn setup(self) -> Seq<u8> {
        self.setup@
    }

    /// The password file.
    pub closed spec fn file(self) -> Seq<u8> {
        self.password_file@
    }

    /// The identifier of the host.
    pub closed spec fn credential(self) -> Seq<u8> {
        self.credential_id.bytes@
    }

    /// Overwrites the secrets of a registration that is no longer used.
    pub fn zeroize(&mut self)
        ensures
            final(self).setup() == Seq::new(old(self).setup().len(), |i: int| 0u8),
            final(self).file() == Seq::new(old(self).file().len(), |i: int| 0u8),
            final(self).credential() == old(self).credential(),
    {
        wipe(self.setup.as_mut_slice());
        wipe(self.password_file.as_mut_slice());
    }

    /// The registration can come of registering a secret.
    pub open spec fn holds(self, secret: Seq<u8>) -> bool {
        registered(
            self.setup(),
            self.file(),
            secret,
            self.credential(),
            ARGON2_MEMORY,
            ARGON2_PASSES,
            ARGON2_LANES,
        )
    }
}

/// Client login state plus the short-lived password needed by OPAQUE's final step.
pub struct OpaqueClientState {
    inner: Vec<u8>,
    secret: [u8; 8],
    server: PeerIdBytes,
}

impl OpaqueClientState {
    /// The login state.
    pub closed spec fn state(self) -> Seq<u8> {
        self.inner@
    }

    /// The password.
    pub closed spec fn secret(self) -> Seq<u8> {
        self.secret@
    }

    /// The identifier of the host.
    pub closed spec fn server(self) -> Seq<u8> {
        self.server.bytes@
    }

    /// Overwrites the secrets of a state that is no longer used.
    pub fn zeroize(&mut self)
        ensures
            final(self).secret() == Seq::new(8, |i: int| 0u8),
            final(self).state() == Seq::new(old(self).state().len(), |i: int| 0u8),
            final(self).server() == old(self).server(),
    {
        wipe(&mut self.secret);
        wipe(self.inner.as_mut_slice());
    }
}

/// Server login state plus the exact transcript context needed for key
/// confirmation.
pub struct OpaqueServerState {
    inner: Vec<u8>,
    context: [u8; 256],
    context_len: u16,
    server: PeerIdBytes,
}

impl OpaqueServerState {
    #[verifier::type_invariant]
    spec fn wf(self) -> bool {
        self.inner@.len() == SERVER_STATE_LEN && self.context_len <= MAX_CONTEXT_LEN
    }

    /// The login state.
    pub closed spec fn state(self) -> Seq<u8> {
        self.inner@
    }

    /// The context of the login.
    pub closed spec fn context(self) -> Seq<u8> {
        self.context@.take(self.context_len as int)
    }

    /// All the bytes that are set aside for a context, those behind it included.
    pub closed spec fn stored(self) -> Seq<u8> {
        self.context@
    }

    /// The identifier of the host.
    pub closed spec fn server(self) -> Seq<u8> {
        self.server.bytes@
    }

    /// Keeps a login state with its context, unless the context is too long.
    pub fn new(inner: Vec<u8>, context: &[u8], server: PeerIdBytes) -> (state: Result<
        Self,
        OpaquePakeError,
    >)
        requires
            inner@.len() == SERVER_STATE_LEN,
        ensures
            match state {
                Ok(state) => context@.len() <= MAX_CONTEXT_LEN && state.state() == inner@
                    && state.context() == context@ && state.server() == server.bytes@
                    && state.stored() == context@ + Seq::new(
                    (MAX_CONTEXT_LEN - context@.len()) as nat,
                    |i: int| 0u8,
                ),
                Err(error) => context@.len() > MAX_CONTEXT_LEN && error
                    == OpaquePakeError::WireSize,
            },
    {
        if context.len() > MAX_CONTEXT_LEN {
            let mut inner = inner;
            wipe(inner.as_mut_slice());
            return Err(OpaquePakeError::WireSize);
        }
        let len: usize = context.len();
        let mut bytes: [u8; 256] = [0; 256];
        let mut at: usize = 0;
        while at < len
            invariant
                at <= len <= MAX_CONTEXT_LEN,
                context@.len() == len,
                forall|i: int| 0 <= i < at ==> bytes@[i] == context@[i],
                forall|i: int| at <= i < 256 ==> bytes@[i] == 0u8,
            decreases len - at,
        {
            bytes[at] = context[at];
            at += 1;
        }
        let context_len: u16 = len as u16;
        assert(bytes@.take(context_len as int) =~= context@);
        Ok(OpaqueServerState { inner, context: bytes, context_len, server })
    }

    /// Overwrites the secrets of a state that is no longer used.
    pub fn zeroize(&mut self)
        ensures
            final(self).state() == Seq::new(SERVER_STATE_LEN as nat, |i: int| 0u8),
            final(self).stored() == Seq::new(MAX_CONTEXT_LEN as nat, |i: int| 0u8),
            final(self).context() == Seq::<u8>::empty(),
            final(self).server() == old(self).server(),
    {
        proof {
            use_type_invariant(&*self);
        }
        let mut inner: Vec<u8> = vec![0; SERVER_STATE_LEN];
        std::mem::swap(&mut inner, &mut self.inner);
        wipe(inner.as_mut_slice());
        wipe(&mut self.context);
        self.context_len = 0;
        assert(self.context@.take(0) =~= Seq::<u8>::empty());
    }
}

/// Secret key confirmed by both OPAQUE participants.
pub struct OpaqueSessionKey {
    bytes: [u8; 64],
}

impl OpaqueSessionKey {
    /// The bytes of the key.
    pub closed spec fn key(self) -> Seq<u8> {
        self.bytes@
    }

    /// The bytes of the key.
    pub fn as_ref(&self) -> (bytes: &[u8])
        ensures
            bytes@ == self.key(),
            bytes@.len() == SESSION_KEY_LEN,
    {
        self.bytes.as_slice()
    }

    /// What may be shown of the key: nothing of its bytes.
    pub fn redacted(&self) -> (text: String)
        ensures
            text@ == "OpaqueSessionKey([REDACTED])"@,
    {
        "OpaqueSessionKey([REDACTED])".to_owned()
    }

    /// Overwrites a key that is no longer used.
    pub fn zeroize(&mut self)
        ensures
            final(self).key() == Seq::new(64, |i: int| 0u8),
    {
        wipe(&mut self.bytes);
    }
}

// ---------------------------------------------------------------------------
// The exchange
// ---------------------------------------------------------------------------

/// A registration of a secret that began with this state and request is refused by a
/// later step of the exchange: the answer, or the closing of what was answered.
pub open spec fn step_refused(
    setup: Seq<u8>,
    secret: Seq<u8>,
    server: Seq<u8>,
    state: Seq<u8>,
    request: Seq<u8>,
) -> bool {
    &&& setup_made(setup)
    &&& registration_begun(secret, state, request)
    &&& match registration_answer(setup, request, server) {
        None => true,
        Some(response) => registration_refused(
            state,
            secret,
            response,
            server,
            ARGON2_MEMORY,
            ARGON2_PASSES,
            ARGON2_LANES,
        ),
    }
}

/// The exchange itself refuses some registration that began with a secret, for a
/// server.
pub open spec fn exchange_refused(secret: Seq<u8>, server: Seq<u8>) -> bool {
    exists|setup: Seq<u8>, state: Seq<u8>, request: Seq<u8>| #[trigger]
        step_refused(setup, secret, server, state, request)
}

/// What a client makes of the beginning of its login.
pub fn accept_begun_login(
    begun: Option<(Vec<u8>, Vec<u8>)>,
    server: &PeerIdBytes,
    secret: &PakeSecret,
) -> (result: Result<(OpaqueClientState, [u8; 96]), OpaquePakeError>)
    ensures
        match begun {
            None => result is Err && result->Err_0 == OpaquePakeError::Rejected,
            Some((state, request)) => match result {
                Ok((kept, message)) => request@.len() == KE1_LEN && message@ == request@
                    && kept.state() == state@ && kept.secret() == secret.bytes@ && kept.server()
                    == server.bytes@,
                Err(error) => request@.len() != KE1_LEN && error == OpaquePakeError::WireSize,
            },
        },
{
    match begun {
        None => Err(OpaquePakeError::Rejected),
        Some((state, request)) => match exact_array(request.as_slice()) {
            Ok(message) => {
                let kept = OpaqueClientState {
                    inner: state,
                    secret: secret.bytes,
                    server: server.copied(),
                };
                Ok((kept, message))
            },
            Err(error) => {
                let mut state = state;
                wipe(state.as_mut_slice());
                Err(error)
            },
        },
    }
}

/// What a host makes of the answer to a login.
pub fn accept_answered_login(
    answered: Option<(Vec<u8>, Vec<u8>)>,
    context: &[u8],
    server: &PeerIdBytes,
) -> (result: Result<(OpaqueServerState, [u8; 320]), OpaquePakeError>)
    requires
        match answered {
            Some((state, _)) => state@.len() == SERVER_STATE_LEN,
            None => true,
        },
    ensures
        match answered {
            None => result is Err && result->Err_0 == OpaquePakeError::Rejected,
            Some((state, response)) => match result {
                Ok((kept, message)) => response@.len() == KE2_LEN && context@.len()
                    <= MAX_CONTEXT_LEN && message@ == response@ && kept.state() == state@
                    && kept.context() == context@ && kept.server() == server.bytes@,
                Err(error) => (response@.len() != KE2_LEN || context@.len() > MAX_CONTEXT_LEN)
                    && error == OpaquePakeError::WireSize,
            },
        },
{
    match answered {
        None => Err(OpaquePakeError::Rejected),
        Some((state, response)) => match exact_array(response.as_slice()) {
            Ok(message) => match OpaqueServerState::new(state, context, server.copied()) {
                Ok(kept) => Ok((kept, message)),
                Err(error) => Err(error),
            },
            Err(error) => {
                let mut state = state;
                wipe(state.as_mut_slice());
                Err(error)
            },
        },
    }
}

/// Safe adapter around the approved `opaque-ke` ciphersuite.
#[derive(Debug, Clone, Copy)]
pub struct OpaquePake;

impl OpaquePake {
    /// Registers a secret for a host, playing both sides. A registration can come
    /// of the secret; the only failure is a rejection, where the exchange itself
    /// refused to answer or to close what began with this secret.
    pub fn register(&mut self, server: &PeerIdBytes, secret: &PakeSecret) -> (result: Result<
        OpaqueRegistration,
        OpaquePakeError,
    >)
        ensures
            match result {
                Ok(registration) => registration.holds(secret.bytes@) && registration.credential()
                    == server.bytes@ && setup_made(registration.setup()),
                Err(error) => error == OpaquePakeError::Rejected && exchange_refused(
                    secret.bytes@,
                    server.bytes@,
                ),
            },
    {
        let setup = new_setup();
        let password: &[u8] = secret.bytes.as_slice();
        let server_id: &[u8] = server.bytes.as_slice();
        let (state, request) = match begin_registration(password) {
            Some(begun) => begun,
            None => {
                return Err(OpaquePakeError::Rejected);
            },
        };
        let answer = answer_registration(setup.as_slice(), request.as_slice(), server_id);
        let closed = match answer {
            Some(response) => close_registration(
                state.as_slice(),
                password,
                response.as_slice(),
                server_id,
                ARGON2_MEMORY,
                ARGON2_PASSES,
                ARGON2_LANES,
            ),
            None => None,
        };
        let ghost begun = state@;
        proof {
            if closed is None {
                assert(step_refused(setup@, password@, server_id@, begun, request@));
            }
        }
        let mut state = state;
        wipe(state.as_mut_slice());
        let upload = match closed {
            Some(upload) => upload,
            None => {
                return Err(OpaquePakeError::Rejected);
            },
        };
        proof {
            assert(registration_begun(password@, begun, request@));
        }
        match record_registration(upload.as_slice()) {
            Some(password_file) => Ok(
                OpaqueRegistration { setup, password_file, credential_id: server.copied() },
            ),
            None => Err(OpaquePakeError::Rejected),
        }
    }

    /// Begins a login with a secret at a host, which always succeeds. The state and
    /// the message can come of the secret.
    pub fn client_start(&mut self, server: &PeerIdBytes, secret: &PakeSecret) -> (result: Result<
        (OpaqueClientState, [u8; 96]),
        OpaquePakeError,
    >)
        ensures
            match result {
                Ok((state, message)) => login_begun(secret.bytes@, state.state(), message@)
                    && state.secret() == secret.bytes@ && state.server() == server.bytes@,
                Err(_) => false,
            },
    {
        accept_begun_login(begin_login(secret.bytes.as_slice()), server, secret)
    }

    /// Ends a login on the client's side. In an honest run (the host registered the
    /// same secret under the same identifier, and answered the message of this very
    /// state for the same context) it succeeds, with the last message that the host
    /// expects and the session key that the host holds.
    pub fn client_finish(
        &mut self,
        state: OpaqueClientState,
        response: &[u8; 320],
        context: &[u8],
    ) -> (result: Result<([u8; 64], OpaqueSessionKey), OpaquePakeError>)
        ensures
            match login_closed(
                state.state(),
                state.secret(),
                response@,
                context@,
                state.server(),
                ARGON2_MEMORY,
                ARGON2_PASSES,
                ARGON2_LANES,
            ) {
                Some((finish, key)) => match result {
                    Ok((message, session)) => message@ == finish && session.key() == key,
                    Err(_) => false,
                },
                None => result is Err && result->Err_0 == OpaquePakeError::Rejected,
            },
            forall|registration: OpaqueRegistration, request: Seq<u8>, host: Seq<u8>|
                #![trigger
                    login_begun(state.secret(), state.state(), request),
                    login_answered(
                        registration.setup(),
                        registration.file(),
                        request,
                        registration.credential(),
                        context@,
                        host,
                        response@,
                    )
                ]
                honest_run(registration, state, request, context@, host, response@)
                    ==> match result {
                    Ok((message, session)) => client_agrees(host, message@, session.key()),
                    Err(_) => false,
                },
    {
        let mut state = state;
        let closed = close_login(
            state.inner.as_slice(),
            state.secret.as_slice(),
            response.as_slice(),
            context,
            state.server.bytes.as_slice(),
            ARGON2_MEMORY,
            ARGON2_PASSES,
            ARGON2_LANES,
        );
        state.zeroize();
        match closed {
            None => Err(OpaquePakeError::Rejected),
            Some((finish, key)) => {
                let message = exact_array(finish.as_slice());
                let bytes = exact_array(key.as_slice());
                let mut key = key;
                wipe(key.as_mut_slice());
                match (message, bytes) {
                    (Ok(message), Ok(bytes)) => Ok((message, OpaqueSessionKey { bytes })),
                    _ => Err(OpaquePakeError::WireSize),
                }
            },
        }
    }

    /// Answers the beginning of a login. The state and the message can come of the
    /// registration, the request and the context; a context that is too long is
    /// refused. Any other failure is a refusal of these very arguments by the
    /// exchange, and a controller that began its login with the registered secret is
    /// never refused.
    pub fn server_start(
        &mut self,
        registration: &OpaqueRegistration,
        request: &[u8; 96],
        context: &[u8],
    ) -> (result: Result<(OpaqueServerState, [u8; 320]), OpaquePakeError>)
        ensures
            match result {
                Ok((state, message)) => context@.len() <= MAX_CONTEXT_LEN && state.state().len()
                    == SERVER_STATE_LEN && login_answered(
                    registration.setup(),
                    registration.file(),
                    request@,
                    registration.credential(),
                    context@,
                    state.state(),
                    message@,
                ) && state.context() == context@ && state.server() == registration.credential(),
                Err(OpaquePakeError::WireSize) => context@.len() > MAX_CONTEXT_LEN,
                Err(OpaquePakeError::Rejected) => login_refused(
                    registration.setup(),
                    registration.file(),
                    request@,
                    registration.credential(),
                    context@,
                ),
            },
            forall|secret: Seq<u8>, client: Seq<u8>| #[trigger]
                registration.holds(secret) && #[trigger] login_begun(secret, client, request@)
                    && context@.len() <= MAX_CONTEXT_LEN ==> result is Ok,
    {
        let answered = answer_login(
            registration.setup.as_slice(),
            registration.password_file.as_slice(),
            request.as_slice(),
            registration.credential_id.bytes.as_slice(),
            context,
        );
        accept_answered_login(answered, context, &registration.credential_id)
    }

    /// Ends a login on the host's side: the session key, if the client sent the
    /// message that the host's state expects.
    pub fn server_finish(&mut self, state: OpaqueServerState, finish: &[u8; 64]) -> (result: Result<
        OpaqueSessionKey,
        OpaquePakeError,
    >)
        ensures
            match result {
                Ok(session) => host_outcome(state.state(), finish@) == Some(session.key()),
                Err(error) => host_outcome(state.state(), finish@) is None && error
                    == OpaquePakeError::Rejected,
            },
    {
        proof {
            use_type_invariant(&state);
        }
        let mut state = state;
        let context_len: usize = state.context_len as usize;
        let confirmed = confirm_login(
            state.inner.as_slice(),
            finish.as_slice(),
            &state.context[0..context_len],
            state.server.bytes.as_slice(),
        );
        state.zeroize();
        match confirmed {
            None => Err(OpaquePakeError::Rejected),
            Some(key) => {
                let bytes = exact_array(key.as_slice());
                let mut key = key;
                wipe(key.as_mut_slice());
                match bytes {
                    Ok(bytes) => Ok(OpaqueSessionKey { bytes }),
                    Err(error) => Err(error),
                }
            },
        }
    }
}

/// A client's login met the host's registration of the same secret under the same
/// identifier, and the host answered the client's request for a context.
pub open spec fn honest_run(
    registration: OpaqueRegistration,
    client: OpaqueClientState,
    request: Seq<u8>,
    context: Seq<u8>,
    host: Seq<u8>,
    response: Seq<u8>,
) -> bool {
    &&& registration.holds(client.secret())
    &&& registration.credential() == client.server()
    &&& login_begun(client.secret(), client.state(), request)
    &&& login_answered(
        registration.setup(),
        registration.file(),
        request,
        registration.credential(),
        context,
        host,
        response,
    )
}

/// What a client of an honest run sends and holds, over the host's login state: the
/// message that the host expects, and its session key.
pub open spec fn client_agrees(host: Seq<u8>, message: Seq<u8>, key: Seq<u8>) -> bool {
    message == last_message(host) && key == session_key(host)
}

/// The session key that a host hands out, over its login state and the message that
/// it received: none unless the message is the one that it expects.
pub open spec fn host_outcome(host: Seq<u8>, message: Seq<u8>) -> Option<Seq<u8>> {
    if message == last_message(host) {
        Some(session_key(host))
    } else {
        None
    }
}

// ---------------------------------------------------------------------------
// Laws
// ---------------------------------------------------------------------------

/// Both sides of an honest run confirm the same key, of [`SESSION_KEY_LEN`] bytes; a
/// message that differs from the client's in any byte is rejected.
pub proof fn law_both_sides_confirm_the_same_key(
    host: Seq<u8>,
    message: Seq<u8>,
    key: Seq<u8>,
    received: Seq<u8>,
)
    requires
        host.len() == SERVER_STATE_LEN,
        client_agrees(host, message, key),
    ensures
        host_outcome(host, message) == Some(key),
        key.len() == SESSION_KEY_LEN,
        received != message ==> host_outcome(host, received) is None,
{
}

} // verus!
