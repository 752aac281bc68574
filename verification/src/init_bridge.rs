//! The one-shot command that initializes a bridge.
//!
//! Initializing a bridge means handing the light client at the target chain
//! its first header and authority set. It is done once, by hand, with a
//! transaction that never expires.

use vstd::prelude::*;
use crate::finality::InitializationData;
use crate::primitives::{str_equal, Nonce, H256};
use crate::transactions::{
    SignParam, SignRequest, Submission, SubmissionKind, SubmitAction, TransactionEra,
};

verus! {

/// A chain that the relay knows.
#[derive(Clone, Copy, Debug, PartialEq, Eq)]
pub enum ChainName {
    Millau,
    Rialto,
    RialtoParachain,
    Westend,
}

/// Bridge to initialize.
#[derive(Clone, Copy, Debug, PartialEq, Eq)]
pub enum InitBridgeName {
    MillauToRialto,
    RialtoToMillau,
    WestendToMillau,
    MillauToRialtoParachain,
}

/// Where to find a node of a chain.
#[derive(Clone, Debug)]
pub struct ConnectionParams {
    /// Name or address of the host.
    pub host: String,
    /// Port of the node's RPC server.
    pub port: u16,
    /// Whether to connect over TLS.
    pub secure: bool,
}

/// How to sign at a chain.
#[derive(Clone, Debug)]
pub struct SigningParams {
    /// The secret of the signer, if given on the command line.
    pub signer: Option<String>,
    /// The password of the signer's secret, if it has one.
    pub signer_password: Option<String>,
}

/// Initialize bridge pallet.
#[derive(Clone, Debug)]
pub struct InitBridge {
    /// A bridge instance to initialize.
    pub bridge: InitBridgeName,
    /// The source chain's node.
    pub source: ConnectionParams,
    /// The target chain's node.
    pub target: ConnectionParams,
    /// The signer at the target chain.
    pub target_sign: SigningParams,
}

/// How the command starts: where it connects to, and the submission of its
/// one transaction.
#[derive(Clone, Copy, Debug, PartialEq, Eq)]
pub struct InitBridgeRun {
    /// The chain to read the first header and authority set from.
    pub source: ChainName,
    /// The chain whose light client is initialized.
    pub target: ChainName,
    /// The submission of the initializing transaction, not yet begun.
    pub submission: Submission,
    /// The first thing to do for that submission.
    pub action: SubmitAction,
}

/// The call that initializes a bridge, before it is encoded for its chain.
#[derive(Clone, Debug)]
pub struct InitBridgeCall {
    /// The chain whose light client is initialized; it names the instance
    /// of the bridge pallet.
    pub bridged_chain: ChainName,
    /// Whether the call is wrapped into a call of the superuser.
    pub via_sudo: bool,
    /// What the light client starts from.
    pub init_data: InitializationData,
}

impl InitBridgeName {
    /// The name of the bridge on the command line.
    pub open spec fn spec_name(self) -> Seq<char> {
        match self {
            InitBridgeName::MillauToRialto => "millau-to-rialto"@,
            InitBridgeName::RialtoToMillau => "rialto-to-millau"@,
            InitBridgeName::WestendToMillau => "westend-to-millau"@,
            InitBridgeName::MillauToRialtoParachain => "millau-to-rialto-parachain"@,
        }
    }

    /// The chain that the bridge reads from.
    pub open spec fn spec_source(self) -> ChainName {
        match self {
            InitBridgeName::MillauToRialto => ChainName::Millau,
            InitBridgeName::RialtoToMillau => ChainName::Rialto,
            InitBridgeName::WestendToMillau => ChainName::Westend,
            InitBridgeName::MillauToRialtoParachain => ChainName::Millau,
        }
    }

    /// The chain that the bridge writes to.
    pub open spec fn spec_target(self) -> ChainName {
        match self {
            InitBridgeName::MillauToRialto => ChainName::Rialto,
            InitBridgeName::RialtoToMillau => ChainName::Millau,
            InitBridgeName::WestendToMillau => ChainName::Millau,
            InitBridgeName::MillauToRialtoParachain => ChainName::RialtoParachain,
        }
    }

    /// Whether the initialization goes through the superuser of the target.
    ///
    /// Westend to Millau does not: Millau has one superuser account, and it
    /// is needed for the Rialto to Millau bridge. Two initializations from
    /// one account could collide on its nonce.
    pub open spec fn spec_via_sudo(self) -> bool {
        !(self is WestendToMillau)
    }

    /// The names of all bridges, as the command line takes them.
    pub fn variants() -> (names: [&'static str; 4])
        ensures
            names[0]@ == InitBridgeName::MillauToRialto.spec_name(),
            names[1]@ == InitBridgeName::RialtoToMillau.spec_name(),
            names[2]@ == InitBridgeName::WestendToMillau.spec_name(),
            names[3]@ == InitBridgeName::MillauToRialtoParachain.spec_name(),
    {
        ["millau-to-rialto", "rialto-to-millau", "westend-to-millau", "millau-to-rialto-parachain"]
    }

    /// The name of the bridge on the command line.
    pub fn name(&self) -> (name: &'static str)
        ensures
            name@ == self.spec_name(),
    {
        match self {
            InitBridgeName::MillauToRialto => "millau-to-rialto",
            InitBridgeName::RialtoToMillau => "rialto-to-millau",
            InitBridgeName::WestendToMillau => "westend-to-millau",
            InitBridgeName::MillauToRialtoParachain => "millau-to-rialto-parachain",
        }
    }

    /// The bridge of the given name, if there is one.
    pub fn from_name(name: &str) -> (bridge: Option<InitBridgeName>)
        ensures
            bridge matches Some(b) ==> name@ == b.spec_name(),
            bridge is None ==> forall|b: InitBridgeName| name@ != #[trigger] b.spec_name(),
    {
        if str_equal(name, "millau-to-rialto") {
            Some(InitBridgeName::MillauToRialto)
        } else if str_equal(name, "rialto-to-millau") {
            Some(InitBridgeName::RialtoToMillau)
        } else if str_equal(name, "westend-to-millau") {
            Some(InitBridgeName::WestendToMillau)
        } else if str_equal(name, "millau-to-rialto-parachain") {
            Some(InitBridgeName::MillauToRialtoParachain)
        } else {
            None
        }
    }

    /// The chain that the bridge reads from.
    pub fn source(&self) -> (chain: ChainName)
        ensures
            chain == self.spec_source(),
    {
        match self {
            InitBridgeName::MillauToRialto => ChainName::Millau,
            InitBridgeName::RialtoToMillau => ChainName::Rialto,
            InitBridgeName::WestendToMillau => ChainName::Westend,
            InitBridgeName::MillauToRialtoParachain => ChainName::Millau,
        }
    }

    /// The chain that the bridge writes to.
    pub fn target(&self) -> (chain: ChainName)
        ensures
            chain == self.spec_target(),
    {
        match self {
            InitBridgeName::MillauToRialto => ChainName::Rialto,
            InitBridgeName::RialtoToMillau => ChainName::Millau,
            InitBridgeName::WestendToMillau => ChainName::Millau,
            InitBridgeName::MillauToRialtoParachain => ChainName::RialtoParachain,
        }
    }

    /// The call that initializes this bridge with `init_data`: a call of
    /// the bridge pallet instance for the source chain, wrapped into a call
    /// of the superuser where the bridge goes through it.
    pub fn encode_init_bridge(&self, init_data: InitializationData) -> (call: InitBridgeCall)
        ensures
            call.bridged_chain == self.spec_source(),
            call.via_sudo == self.spec_via_sudo(),
            call.init_data == init_data,
    {
        let via_sudo = match self {
            InitBridgeName::WestendToMillau => false,
            _ => true,
        };
        InitBridgeCall { bridged_chain: self.source(), via_sudo, init_data }
    }
}

impl InitBridge {
    /// Run the command, as far as that takes no chain: pick the chains of
    /// the bridge and start the submission of a bootstrap transaction.
    pub fn run(&self) -> (run: InitBridgeRun)
        ensures
            run.source == self.bridge.spec_source(),
            run.target == self.bridge.spec_target(),
            (run.submission, run.action) == Submission::spec_start(SubmissionKind::Bootstrap),
    {
        let (submission, action) = Submission::start(SubmissionKind::Bootstrap);
        InitBridgeRun { source: self.bridge.source(), target: self.bridge.target(), submission, action }
    }
}

/// The parameters for signing the transaction that initializes a bridge.
/// The versions and the genesis hash are those just read from the target;
/// the transaction never expires.
pub fn init_bridge_sign_param<S>(
    spec_version: u32,
    transaction_version: u32,
    genesis_hash: H256,
    signer: S,
    transaction_nonce: Nonce,
    call: Vec<u8>,
) -> (param: SignParam<S>)
    ensures
        param.spec_version == spec_version,
        param.transaction_version == transaction_version,
        param.genesis_hash == genesis_hash,
        param.signer == signer,
        param.era == TransactionEra::Immortal,
        param.unsigned.call@ == call@,
        param.unsigned.nonce == transaction_nonce,
{
    SignParam::assemble(
        SignRequest {
            spec_version,
            transaction_version,
            genesis_hash,
            era: TransactionEra::Immortal,
            nonce: transaction_nonce,
        },
        signer,
        call,
    )
}

/// Different bridges have different names, so a name stands for one bridge.
pub proof fn lemma_bridge_names_differ(a: InitBridgeName, b: InitBridgeName)
    requires
        a != b,
    ensures
        a.spec_name() != b.spec_name(),
{
    reveal_strlit("millau-to-rialto");
    reveal_strlit("rialto-to-millau");
    reveal_strlit("westend-to-millau");
    reveal_strlit("millau-to-rialto-parachain");
    assert("millau-to-rialto"@.len() == 16 && "millau-to-rialto"@[0] == 'm');
    assert("rialto-to-millau"@.len() == 16 && "rialto-to-millau"@[0] == 'r');
    assert("westend-to-millau"@.len() == 17);
    assert("millau-to-rialto-parachain"@.len() == 26);
}

} // verus!
