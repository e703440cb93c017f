//! The socket options that hand a connection to the kernel's TLS layer.
use vstd::prelude::*;
use crate::cmsg::SOL_TLS;
use crate::keys::tls12_crypto_info_aes_gcm_128;

verus! {

/// Socket option that attaches an upper-layer protocol to a TCP socket.
pub const TCP_ULP: i32 = 31;
/// Socket level of TCP options.
pub const SOL_TCP: i32 = 6;
/// TLS-level option that installs the transmit parameters.
pub const TLS_TX: i32 = 1;
/// TLS-level option that installs the receive parameters.
pub const TLS_RX: i32 = 2;

/// One socket option of the enabling sequence.
#[derive(Debug, Clone, Copy)]
pub enum SockOpt {
    /// Attach the "tls" upper-layer protocol.
    UpperLayer,
    /// Install the transmit crypto parameters.
    Transmit(tls12_crypto_info_aes_gcm_128),
    /// Install the receive crypto parameters.
    Receive(tls12_crypto_info_aes_gcm_128),
}

impl SockOpt {
    /// Socket level at which the option is set.
    pub open spec fn spec_level(&self) -> i32 {
        match self {
            SockOpt::UpperLayer => SOL_TCP,
            _ => SOL_TLS,
        }
    }

    /// Name of the option at its level.
    pub open spec fn spec_name(&self) -> i32 {
        match self {
            SockOpt::UpperLayer => TCP_ULP,
            SockOpt::Transmit(_) => TLS_TX,
            SockOpt::Receive(_) => TLS_RX,
        }
    }

    /// Socket level at which the option is set.
    pub fn level(&self) -> (r: i32)
        ensures
            r == self.spec_level(),
    {
        match self {
            SockOpt::UpperLayer => SOL_TCP,
            _ => SOL_TLS,
        }
    }

    /// Name of the option at its level.
    pub fn name(&self) -> (r: i32)
        ensures
            r == self.spec_name(),
    {
        match self {
            SockOpt::UpperLayer => TCP_ULP,
            SockOpt::Transmit(_) => TLS_TX,
            SockOpt::Receive(_) => TLS_RX,
        }
    }
}

/// The value of the upper-layer option: "tls", NUL-terminated.
pub fn upper_layer_name() -> (r: Vec<u8>)
    ensures
        r@ == seq![0x74u8, 0x6cu8, 0x73u8, 0u8],
{
    vec![0x74u8, 0x6cu8, 0x73u8, 0u8]
}

/// The options that enable the offload, in the order in which they must be
/// set: the upper-layer protocol first, since the kernel only knows the
/// TLS-level options once it is attached; then the transmit and the receive
/// parameters. The caller sets them in this order and stops at the first
/// failure, without rollback.
pub fn start(tx: &tls12_crypto_info_aes_gcm_128, rx: &tls12_crypto_info_aes_gcm_128) -> (r: Vec<
    SockOpt,
>)
    ensures
        r@ == seq![SockOpt::UpperLayer, SockOpt::Transmit(*tx), SockOpt::Receive(*rx)],
{
    let mut steps: Vec<SockOpt> = Vec::new();
    steps.push(SockOpt::UpperLayer);
    steps.push(SockOpt::Transmit(*tx));
    steps.push(SockOpt::Receive(*rx));
    assert(steps@ =~= seq![SockOpt::UpperLayer, SockOpt::Transmit(*tx), SockOpt::Receive(*rx)]);
    steps
}

/// Number of options in the enabling sequence.
pub const ENABLE_STEPS: usize = 3;

/// What follows the setting of one option of the enabling sequence.
#[derive(Debug, Clone, Copy, PartialEq, Eq, Structural)]
pub enum EnableStep {
    /// Set the option at this index of the sequence next.
    Next(usize),
    /// Every option is set: the offload is enabled.
    Enabled,
    /// The option could not be set: stop here, without rollback, and report
    /// that option's error.
    Failed,
}

/// The step after setting option `index` of the sequence that `start`
/// returns: a failure ends the sequence at once; a success moves on to the
/// next option, or ends it after the last one.
pub fn after_option(index: usize, succeeded: bool) -> (r: EnableStep)
    ensures
        !succeeded ==> r == EnableStep::Failed,
        succeeded && index + 1 < ENABLE_STEPS ==> r == EnableStep::Next((index + 1) as usize),
        succeeded && index + 1 >= ENABLE_STEPS ==> r == EnableStep::Enabled,
{
    if !succeeded {
        EnableStep::Failed
    } else if index < ENABLE_STEPS - 1 {
        EnableStep::Next(index + 1)
    } else {
        EnableStep::Enabled
    }
}

} // verus!
