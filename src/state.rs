use vstd::prelude::*;

verus! {

/// The largest fee rate: 10_000 basis points are the whole amount.
pub const MAX_AFFILIATE_BPS: u16 = 10_000;

/// The persisted configuration. Both addresses are host-validated before
/// they are stored.
pub struct Config {
    pub owner: String,
    pub affiliate_addr: String,
    pub affiliate_bps: u16,
}

/// The mathematical model of a `Config`.
pub struct ConfigView {
    pub owner: Seq<char>,
    pub affiliate_addr: Seq<char>,
    pub affiliate_bps: u16,
}

impl View for Config {
    type V = ConfigView;

    open spec fn view(&self) -> ConfigView {
        ConfigView {
            owner: self.owner@,
            affiliate_addr: self.affiliate_addr@,
            affiliate_bps: self.affiliate_bps,
        }
    }
}

impl ConfigView {
    /// The rate never exceeds the whole amount.
    pub open spec fn wf(self) -> bool {
        self.affiliate_bps <= MAX_AFFILIATE_BPS
    }

    /// Only the owner may change the configuration.
    pub open spec fn authorizes(self, sender: Seq<char>) -> bool {
        self.owner == sender
    }

    pub open spec fn with_affiliate(self, affiliate_addr: Seq<char>, affiliate_bps: u16) -> ConfigView {
        ConfigView { affiliate_addr, affiliate_bps, ..self }
    }

    pub open spec fn with_owner(self, owner: Seq<char>) -> ConfigView {
        ConfigView { owner, ..self }
    }
}

/// How the pool manager's reply is to be decoded.
#[derive(Clone, Copy, Debug, PartialEq, Eq, Structural)]
pub enum PendingSwapKind {
    Single,
    Split,
}

/// What survives between dispatching a swap and settling it on reply.
pub struct SwapReplyState {
    /// The trader, who receives the swap's proceeds.
    pub original_sender: String,
    /// The denom that the route ends in.
    pub token_out_denom: String,
    pub kind: PendingSwapKind,
}

} // verus!
