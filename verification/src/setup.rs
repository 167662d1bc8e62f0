//! From the configuration to what the daemon runs with.
//!
//! Reading files and reaching out to devices is the caller's part. This module holds what
//! the configuration says and settles what follows from it: the rekey interval, the
//! parameters of the protocol, and the one consumer of output keys.

use vstd::prelude::*;
use vstd::utf8::encode_utf8;

use crate::crypto::basics::{zero_key, DaisywayProtocolParameters, Key, REKEY_INTERVAL};
use crate::etsi014::Etsi014Config;
use crate::net::tcp_participant::DaisywayTcpParticipantConfig;
use crate::util::{
    base64_to_key, key_file_text, key_from_base64_file, key_of_base64, Base64Error,
};

verus! {

/// The configuration of the daemon.
#[derive(Debug)]
pub struct DaisywayConfig {
    pub etsi014: Etsi014Config,
    pub wireguard: WireGuardConfig,
    pub outfile: Option<OutfileConfig>,
    pub peer: PeerConfig,
}

/// The identities of the two peers in base64 and, where output keys go to WireGuard, the
/// interface that gets them.
#[derive(Debug)]
pub struct WireGuardConfig {
    pub local_peer_id: String,
    pub remote_peer_id: String,
    pub interface: Option<String>,
}

/// The file that gets the output keys.
#[derive(Debug)]
pub struct OutfileConfig {
    pub path: String,
}

/// The end of the control channel that the daemon is, and the file with the pre-shared key.
#[derive(Debug)]
pub struct PeerConfig {
    pub participant: DaisywayTcpParticipantConfig,
    pub psk_file: Option<String>,
}

/// Why a configuration cannot be run.
#[derive(Debug, Clone, Copy, PartialEq, Eq, Structural)]
pub enum ConfigError {
    /// The file with the pre-shared key does not hold the base64 form of a key.
    PskFile(Base64Error),
    /// The identity of the local peer is not the base64 form of a key.
    LocalPeerId(Base64Error),
    /// The identity of the remote peer is not the base64 form of a key.
    RemotePeerId(Base64Error),
    /// Neither a WireGuard interface nor an output file is configured.
    NoOskHandler,
    /// Both a WireGuard interface and an output file are configured.
    BothOskHandlers,
    /// A WireGuard interface is configured on a system other than Linux.
    WireGuardUnsupported,
}

/// The consumer of output keys that a configuration asks for.
#[derive(Debug)]
pub enum OskHandlerConfig {
    /// Keep the output key in the file `path`.
    Outfile { path: String },
    /// Install the output key for the peer `peer` of the WireGuard interface `interface`.
    WireGuard { peer: String, interface: String },
}

/// What the daemon runs with, as far as the configuration settles it.
#[derive(Debug)]
pub struct Daisyway {
    pub rekey_interval: u64,
    pub protocol_params: DaisywayProtocolParameters,
    pub osk_handler: OskHandlerConfig,
    pub participant: DaisywayTcpParticipantConfig,
}

/// The pre-shared key: the key in the key file where there is one, the zero key otherwise.
pub open spec fn psk_of(psk_file: Option<Seq<u8>>) -> Result<Seq<u8>, Base64Error> {
    match psk_file {
        Some(contents) => key_of_base64(key_file_text(contents)),
        None => Ok(zero_key()),
    }
}

/// The one consumer that the configuration asks for: the interface or the file, not both
/// and not neither, and the interface only on Linux.
pub open spec fn osk_handler_of(config: &DaisywayConfig, on_linux: bool) -> Result<
    (),
    ConfigError,
> {
    match (config.wireguard.interface, config.outfile) {
        (None, None) => Err(ConfigError::NoOskHandler),
        (Some(_), Some(_)) => Err(ConfigError::BothOskHandlers),
        (None, Some(_)) => Ok(()),
        (Some(_), None) => if on_linux {
            Ok(())
        } else {
            Err(ConfigError::WireGuardUnsupported)
        },
    }
}

/// What running `config` comes to: the first thing that is wrong with it, or nothing.
pub open spec fn config_check(config: &DaisywayConfig, psk_file: Option<Seq<u8>>, on_linux: bool) -> Result<
    (),
    ConfigError,
> {
    match psk_of(psk_file) {
        Err(err) => Err(ConfigError::PskFile(err)),
        Ok(_) => match key_of_base64(encode_utf8(config.wireguard.local_peer_id@)) {
            Err(err) => Err(ConfigError::LocalPeerId(err)),
            Ok(_) => match key_of_base64(encode_utf8(config.wireguard.remote_peer_id@)) {
                Err(err) => Err(ConfigError::RemotePeerId(err)),
                Ok(_) => osk_handler_of(config, on_linux),
            },
        },
    }
}

impl DaisywayConfig {
    /// Seconds between two rekey rounds: as configured, or [`REKEY_INTERVAL`].
    pub fn rekey_interval(&self) -> (secs: u64)
        ensures
            secs == match self.etsi014.interval_secs {
                Some(secs) => secs,
                None => REKEY_INTERVAL,
            },
    {
        match self.etsi014.interval_secs {
            Some(secs) => secs,
            None => REKEY_INTERVAL,
        }
    }
}

impl Daisyway {
    /// Settles what the daemon runs with. `psk_file` holds the contents of the file with
    /// the pre-shared key, where the configuration names one; `on_linux` says whether the
    /// system is Linux.
    ///
    /// The pre-shared key comes from the file, or is zero. The identities of the peers are
    /// decoded from base64. Exactly one consumer of output keys has to be configured. The
    /// first of these that fails is reported, in this order.
    pub fn from_config(cfg: &DaisywayConfig, psk_file: Option<&[u8]>, on_linux: bool) -> (res:
        Result<Self, ConfigError>)
        ensures
            match res {
                Ok(daisyway) => {
                    &&& config_check(
                        cfg,
                        match psk_file {
                            Some(contents) => Some(contents@),
                            None => None,
                        },
                        on_linux,
                    ) is Ok
                    &&& daisyway.rekey_interval == match cfg.etsi014.interval_secs {
                        Some(secs) => secs,
                        None => REKEY_INTERVAL,
                    }
                    &&& psk_of(
                        match psk_file {
                            Some(contents) => Some(contents@),
                            None => None,
                        },
                    ) == Ok::<Seq<u8>, Base64Error>(daisyway.protocol_params.psk@)
                    &&& key_of_base64(encode_utf8(cfg.wireguard.local_peer_id@)) == Ok::<
                        Seq<u8>,
                        Base64Error,
                    >(daisyway.protocol_params.local_peer_id@)
                    &&& key_of_base64(encode_utf8(cfg.wireguard.remote_peer_id@)) == Ok::<
                        Seq<u8>,
                        Base64Error,
                    >(daisyway.protocol_params.remote_peer_id@)
                    &&& match daisyway.osk_handler {
                        OskHandlerConfig::Outfile { path } => {
                            &&& cfg.wireguard.interface is None
                            &&& cfg.outfile matches Some(outfile)
                            &&& path@ == outfile.path@
                        },
                        OskHandlerConfig::WireGuard { peer, interface } => {
                            &&& cfg.outfile is None
                            &&& cfg.wireguard.interface matches Some(configured)
                            &&& interface@ == configured@
                            &&& peer@ == cfg.wireguard.remote_peer_id@
                        },
                    }
                    &&& daisyway.participant.same_as(cfg.peer.participant)
                },
                Err(err) => config_check(
                    cfg,
                    match psk_file {
                        Some(contents) => Some(contents@),
                        None => None,
                    },
                    on_linux,
                ) == Err::<(), ConfigError>(err),
            },
    {
        let rekey_interval = cfg.rekey_interval();

        let psk: Key = match psk_file {
            Some(contents) => match key_from_base64_file(contents) {
                Ok(key) => key,
                Err(err) => {
                    return Err(ConfigError::PskFile(err));
                },
            },
            None => {
                let key = [0u8; 32];
                assert(key@ =~= zero_key());
                key
            },
        };

        let local_peer_id = match base64_to_key(cfg.wireguard.local_peer_id.as_str().as_bytes()) {
            Ok(key) => key,
            Err(err) => {
                return Err(ConfigError::LocalPeerId(err));
            },
        };

        let remote_peer_id = match base64_to_key(cfg.wireguard.remote_peer_id.as_str().as_bytes()) {
            Ok(key) => key,
            Err(err) => {
                return Err(ConfigError::RemotePeerId(err));
            },
        };

        let protocol_params = DaisywayProtocolParameters { psk, local_peer_id, remote_peer_id };

        let osk_handler = match (&cfg.wireguard.interface, &cfg.outfile) {
            (None, None) => {
                return Err(ConfigError::NoOskHandler);
            },
            (Some(_), Some(_)) => {
                return Err(ConfigError::BothOskHandlers);
            },
            (None, Some(outfile)) => OskHandlerConfig::Outfile { path: outfile.path.clone() },
            (Some(interface), None) => {
                if !on_linux {
                    return Err(ConfigError::WireGuardUnsupported);
                }
                OskHandlerConfig::WireGuard {
                    peer: cfg.wireguard.remote_peer_id.clone(),
                    interface: interface.clone(),
                }
            },
        };

        Ok(
            Self {
                rekey_interval,
                protocol_params,
                osk_handler,
                participant: cfg.peer.participant.clone(),
            },
        )
    }
}

} // verus!
