//! Per-direction crypto parameters derived from a TLS 1.2 key block.
use vstd::prelude::*;
use byteorder::{ByteOrder, NetworkEndian};

verus! {

/// Version tag of TLS 1.2 in the kernel's crypto-info header.
pub const TLS_1_2_VERSION: u16 = 0x0303;
/// Cipher tag of AES-128-GCM in the kernel's crypto-info header.
pub const TLS_CIPHER_AES_GCM_128: u16 = 51;
/// Length of the explicit nonce (the kernel calls it `iv`).
pub const TLS_CIPHER_AES_GCM_128_IV_SIZE: usize = 8;
/// Length of the AES-128 key.
pub const TLS_CIPHER_AES_GCM_128_KEY_SIZE: usize = 16;
/// Length of the implicit part of the nonce.
pub const TLS_CIPHER_AES_GCM_128_SALT_SIZE: usize = 4;
/// Length of the record sequence number.
pub const TLS_CIPHER_AES_GCM_128_REC_SEQ_SIZE: usize = 8;
/// Length of the key block: two keys, two salts and the shared nonce.
pub const KEY_BLOCK_LEN: usize = 48;

/// The header shared by every kernel crypto-info structure.
#[allow(non_camel_case_types)]
#[derive(Clone, Copy, Debug, PartialEq, Eq, Structural)]
pub struct tls_crypto_info {
    pub version: u16,
    pub cipher_type: u16,
}

impl Default for tls_crypto_info {
    fn default() -> (r: tls_crypto_info)
        ensures
            r.version == TLS_1_2_VERSION,
            r.cipher_type == TLS_CIPHER_AES_GCM_128,
    {
        tls_crypto_info { version: TLS_1_2_VERSION, cipher_type: TLS_CIPHER_AES_GCM_128 }
    }
}

/// Crypto parameters of one direction of a TLS 1.2 AES-128-GCM session, in
/// the field order of the kernel's structure.
#[allow(non_camel_case_types)]
#[derive(Clone, Copy, Debug)]
pub struct tls12_crypto_info_aes_gcm_128 {
    pub info: tls_crypto_info,
    pub iv: [u8; 8],
    pub key: [u8; 16],
    pub salt: [u8; 4],
    pub rec_seq: [u8; 8],
}

/// The parameters of one direction as mathematical values.
pub struct DirectionParams {
    pub version: u16,
    pub cipher_type: u16,
    pub iv: Seq<u8>,
    pub key: Seq<u8>,
    pub salt: Seq<u8>,
    pub rec_seq: Seq<u8>,
}

impl View for tls12_crypto_info_aes_gcm_128 {
    type V = DirectionParams;

    open spec fn view(&self) -> DirectionParams {
        DirectionParams {
            version: self.info.version,
            cipher_type: self.info.cipher_type,
            iv: self.iv@,
            key: self.key@,
            salt: self.salt@,
            rec_seq: self.rec_seq@,
        }
    }
}

/// The eight bytes of `n`, most significant first.
pub open spec fn be_u64(n: u64) -> Seq<u8> {
    seq![
        (n >> 56u64) as u8, (n >> 48u64) as u8, (n >> 40u64) as u8, (n >> 32u64) as u8,
        (n >> 24u64) as u8, (n >> 16u64) as u8, (n >> 8u64) as u8, n as u8,
    ]
}

/// The client's half of a key block: client key and salt, the shared nonce,
/// and the given sequence number.
pub open spec fn client_params(secrets: Seq<u8>, seq: u64) -> DirectionParams {
    DirectionParams {
        version: TLS_1_2_VERSION,
        cipher_type: TLS_CIPHER_AES_GCM_128,
        iv: secrets.subrange(40, 48),
        key: secrets.subrange(0, 16),
        salt: secrets.subrange(32, 36),
        rec_seq: be_u64(seq),
    }
}

/// The server's half of a key block: server key and salt, the shared nonce,
/// and the given sequence number.
pub open spec fn server_params(secrets: Seq<u8>, seq: u64) -> DirectionParams {
    DirectionParams {
        version: TLS_1_2_VERSION,
        cipher_type: TLS_CIPHER_AES_GCM_128,
        iv: secrets.subrange(40, 48),
        key: secrets.subrange(16, 32),
        salt: secrets.subrange(36, 40),
        rec_seq: be_u64(seq),
    }
}

/// The (transmit, receive) pair for a role: the client transmits with the
/// client half and a server with the server half. The transmit direction
/// always starts at the write sequence number, the receive direction at the
/// read sequence number.
pub open spec fn derived_pair(is_client: bool, secrets: Seq<u8>, read_seq: u64, write_seq: u64) -> (
    DirectionParams,
    DirectionParams,
) {
    if is_client {
        (client_params(secrets, write_seq), server_params(secrets, read_seq))
    } else {
        (server_params(secrets, write_seq), client_params(secrets, read_seq))
    }
}

/// Relies on byteorder's `NetworkEndian::write_u64`, which writes `n` into
/// the first eight bytes, most significant byte first.
#[verifier::external_body]
fn network_u64(n: u64) -> (r: [u8; 8])
    ensures
        r@ == be_u64(n),
{
    let mut buf = [0u8; 8];
    NetworkEndian::write_u64(&mut buf, n);
    buf
}

/// Copies the `N` bytes of `secrets` that start at `start`.
fn take<const N: usize>(secrets: &[u8], start: usize) -> (r: [u8; N])
    requires
        start + N <= secrets@.len(),
    ensures
        r@ == secrets@.subrange(start as int, start + N),
{
    let len = secrets.len();
    let mut out = [0u8; N];
    let mut i: usize = 0;
    while i < N
        invariant
            i <= N,
            len == secrets@.len(),
            start + N <= len,
            out@.len() == N,
            forall|j: int| 0 <= j < i ==> out@[j] == secrets@[start + j],
        decreases N - i,
    {
        out[i] = secrets[start + i];
        i = i + 1;
    }
    assert(out@ =~= secrets@.subrange(start as int, start + N));
    out
}

impl tls12_crypto_info_aes_gcm_128 {
    /// Splits a key block laid out as
    /// `client_key | server_key | client_salt | server_salt | nonce`
    /// into the (transmit, receive) parameters of the given role.
    pub fn from_secrets(is_client: bool, secrets: &[u8], seqs: (u64, u64)) -> (r: (Self, Self))
        requires
            secrets@.len() >= KEY_BLOCK_LEN,
        ensures
            (r.0@, r.1@) == derived_pair(is_client, secrets@, seqs.0, seqs.1),
    {
        let (read_seq, write_seq) = seqs;
        let nonce = take::<8>(secrets, 40);
        let (own_key, peer_key, own_salt, peer_salt) = if is_client {
            (take::<16>(secrets, 0), take::<16>(secrets, 16), take::<4>(secrets, 32), take::<4>(
                secrets,
                36,
            ))
        } else {
            (take::<16>(secrets, 16), take::<16>(secrets, 0), take::<4>(secrets, 36), take::<4>(
                secrets,
                32,
            ))
        };
        let tx = tls12_crypto_info_aes_gcm_128 {
            info: tls_crypto_info::default(),
            iv: nonce,
            key: own_key,
            salt: own_salt,
            rec_seq: network_u64(write_seq),
        };
        let rx = tls12_crypto_info_aes_gcm_128 {
            info: tls_crypto_info::default(),
            iv: nonce,
            key: peer_key,
            salt: peer_salt,
            rec_seq: network_u64(read_seq),
        };
        (tx, rx)
    }
}

/// Why a negotiated session cannot be handed to the kernel.
#[derive(Debug, Clone, Copy, PartialEq, Eq, Structural)]
pub enum SetupError {
    /// The handshake has not completed.
    Handshaking,
    /// The protocol version is not TLS 1.2, or the cipher is not AES-128-GCM.
    Unsupported,
}

/// The (transmit, receive) parameters of a negotiated session, after the
/// checks that the offload needs: a completed handshake, TLS 1.2, and the
/// AES-128-GCM bulk cipher. `version` is the negotiated protocol version, if
/// any; `aes_128_gcm` says whether the negotiated bulk cipher is AES-128-GCM.
pub fn session_keys(
    is_client: bool,
    handshaking: bool,
    version: Option<u16>,
    aes_128_gcm: bool,
    key_block: &[u8],
    seqs: (u64, u64),
) -> (r: Result<
    (tls12_crypto_info_aes_gcm_128, tls12_crypto_info_aes_gcm_128),
    SetupError,
>)
    requires
        key_block@.len() >= KEY_BLOCK_LEN,
    ensures
        handshaking ==> r == Err::<
            (tls12_crypto_info_aes_gcm_128, tls12_crypto_info_aes_gcm_128),
            SetupError,
        >(SetupError::Handshaking),
        !handshaking && (version != Some(TLS_1_2_VERSION) || !aes_128_gcm) ==> r == Err::<
            (tls12_crypto_info_aes_gcm_128, tls12_crypto_info_aes_gcm_128),
            SetupError,
        >(SetupError::Unsupported),
        !handshaking && version == Some(TLS_1_2_VERSION) && aes_128_gcm ==> (r matches Ok(p) && (
        p.0@, p.1@) == derived_pair(is_client, key_block@, seqs.0, seqs.1)),
{
    if handshaking {
        return Err(SetupError::Handshaking);
    }
    match version {
        Some(v) => if v != TLS_1_2_VERSION {
            return Err(SetupError::Unsupported);
        },
        None => return Err(SetupError::Unsupported),
    }
    if !aes_128_gcm {
        return Err(SetupError::Unsupported);
    }
    Ok(tls12_crypto_info_aes_gcm_128::from_secrets(is_client, key_block, seqs))
}

/// Changing the role swaps the key and salt of the two directions, which
/// share the nonce; in both roles the transmit direction starts at the write
/// sequence number and the receive direction at the read sequence number.
pub proof fn lemma_role_swaps_directions(secrets: Seq<u8>, read_seq: u64, write_seq: u64)
    requires
        secrets.len() >= KEY_BLOCK_LEN,
    ensures
        ({
            let (ctx, crx) = derived_pair(true, secrets, read_seq, write_seq);
            let (stx, srx) = derived_pair(false, secrets, read_seq, write_seq);
            &&& ctx.key == secrets.subrange(0, 16) && ctx.salt == secrets.subrange(32, 36)
            &&& crx.key == secrets.subrange(16, 32) && crx.salt == secrets.subrange(36, 40)
            &&& stx.key == crx.key && stx.salt == crx.salt && stx.iv == crx.iv
            &&& srx.key == ctx.key && srx.salt == ctx.salt && srx.iv == ctx.iv
            &&& ctx.rec_seq == be_u64(write_seq) && stx.rec_seq == be_u64(write_seq)
            &&& crx.rec_seq == be_u64(read_seq) && srx.rec_seq == be_u64(read_seq)
        }),
{
}

} // verus!
