//! The record that a finished pairing leaves behind, and the bridge handles
//! it is made from.

use vstd::prelude::*;
use vstd::string::StringExecFns;

use crate::random::{is_token, random_token};

verus! {

/// Number of random characters at the end of a device type.
pub const DEVICE_SUFFIX_LEN: usize = 5;

/// The address of a bridge, as the integer that its bytes spell, most
/// significant first.
#[derive(Debug, Copy, Clone, PartialEq, Eq, Structural)]
pub enum IpAddress {
    V4(u32),
    V6(u128),
}

/// What kind of failure the bridge client reported.
#[derive(Debug, Copy, Clone, PartialEq, Eq, Structural)]
pub enum ClientErrorKind {
    /// The request did not get through, or no answer came in time.
    Transport,
    /// An answer came that is not what the protocol allows.
    Malformed,
    /// The bridge answered with an error of this code.
    Bridge { code: u64 },
}

/// The code by which a bridge says that its link button has not been pressed.
pub const LINK_BUTTON_NOT_PRESSED: u64 = 101;

/// A failure of one call to the bridge, with the text that describes it.
#[derive(Debug)]
pub struct ClientError {
    pub kind: ClientErrorKind,
    pub cause: String,
}

/// Whether a failed registration only means that nobody has confirmed it on
/// the bridge yet: the bridge said so, or it could not be reached this time.
/// Any other answer is a rejection.
pub open spec fn is_pending(kind: ClientErrorKind) -> bool {
    match kind {
        ClientErrorKind::Transport => true,
        ClientErrorKind::Malformed => false,
        ClientErrorKind::Bridge { code } => code == LINK_BUTTON_NOT_PRESSED,
    }
}

impl ClientError {
    pub fn new(kind: ClientErrorKind, cause: String) -> (error: Self)
        ensures
            error.kind == kind,
            error.cause == cause,
    {
        ClientError { kind, cause }
    }

    /// Whether registration should be tried again after this failure.
    pub fn is_pending(&self) -> (pending: bool)
        ensures
            pending == is_pending(self.kind),
    {
        match self.kind {
            ClientErrorKind::Transport => true,
            ClientErrorKind::Malformed => false,
            ClientErrorKind::Bridge { code } => code == LINK_BUTTON_NOT_PRESSED,
        }
    }
}

/// A bridge that was found but has not let this client in.
#[derive(Debug, Copy, Clone, PartialEq, Eq, Structural)]
pub struct UnauthBridge {
    pub ip: IpAddress,
}

/// A bridge together with the credential that it gave this client.
#[derive(Debug)]
pub struct Bridge {
    pub ip: IpAddress,
    pub username: String,
}

/// A bridge handle as plain values.
pub struct BridgeView {
    pub ip: IpAddress,
    pub username: Seq<char>,
}

impl View for Bridge {
    type V = BridgeView;

    open spec fn view(&self) -> BridgeView {
        BridgeView { ip: self.ip, username: self.username@ }
    }
}

impl Clone for Bridge {
    fn clone(&self) -> (copy: Self)
        ensures
            copy@ == self@,
    {
        Bridge { ip: self.ip, username: self.username.clone() }
    }
}

impl UnauthBridge {
    /// The handle for this bridge under the credential given.
    pub fn with_user(self, username: String) -> (bridge: Bridge)
        ensures
            bridge@ == (BridgeView { ip: self.ip, username: username@ }),
    {
        Bridge { ip: self.ip, username }
    }
}

/// A bridge whose credential has been seen to work: the only way to one is a
/// listing of the bridge's lights that succeeded.
#[derive(Debug)]
pub struct ValidatedBridge {
    bridge: Bridge,
}

impl View for ValidatedBridge {
    type V = BridgeView;

    closed spec fn view(&self) -> BridgeView {
        self.bridge@
    }
}

impl Clone for ValidatedBridge {
    fn clone(&self) -> (copy: Self)
        ensures
            copy@ == self@,
    {
        ValidatedBridge { bridge: self.bridge.clone() }
    }
}

impl ValidatedBridge {
    /// Accepts `bridge` on the strength of `probe`, the outcome of listing its
    /// lights with the credential in `bridge`: the count of lights, or the
    /// failure, which is handed back.
    pub fn from_bridge(bridge: Bridge, probe: Result<usize, ClientError>) -> (checked: Result<
        Self,
        ClientError,
    >)
        ensures
            match probe {
                Ok(_) => checked is Ok && checked->Ok_0@ == bridge@,
                Err(error) => checked is Err && checked->Err_0 == error,
            },
    {
        match probe {
            Ok(count) => Ok(Self::from_listing(bridge, count)),
            Err(error) => Err(error),
        }
    }

    /// Accepts `bridge` because it has listed its lights, `count` of them,
    /// under the credential in `bridge`.
    pub fn from_listing(bridge: Bridge, count: usize) -> (checked: Self)
        ensures
            checked@ == bridge@,
    {
        ValidatedBridge { bridge }
    }

    pub fn ip(&self) -> (ip: IpAddress)
        ensures
            ip == self@.ip,
    {
        self.bridge.ip
    }

    pub fn username(&self) -> (username: &String)
        ensures
            username@ == self@.username,
    {
        &self.bridge.username
    }
}

/// What is written down of a paired bridge.
#[derive(Debug)]
pub struct BridgeConfig {
    device_type: String,
    bridge_ip: IpAddress,
    bridge_username: String,
}

/// A bridge record as plain values.
pub struct BridgeConfigView {
    pub device_type: Seq<char>,
    pub bridge_ip: IpAddress,
    pub bridge_username: Seq<char>,
}

impl View for BridgeConfig {
    type V = BridgeConfigView;

    closed spec fn view(&self) -> BridgeConfigView {
        BridgeConfigView {
            device_type: self.device_type@,
            bridge_ip: self.bridge_ip,
            bridge_username: self.bridge_username@,
        }
    }
}

impl Clone for BridgeConfig {
    fn clone(&self) -> (copy: Self)
        ensures
            copy@ == self@,
    {
        BridgeConfig {
            device_type: self.device_type.clone(),
            bridge_ip: self.bridge_ip,
            bridge_username: self.bridge_username.clone(),
        }
    }
}

/// What every device type begins with.
pub open spec fn device_type_prefix() -> Seq<char> {
    "twitchbrite#"@
}

/// A device type: the prefix, then five ASCII letters or digits.
pub open spec fn is_device_type(s: Seq<char>) -> bool {
    &&& s.len() == device_type_prefix().len() + DEVICE_SUFFIX_LEN
    &&& s.subrange(0, device_type_prefix().len() as int) == device_type_prefix()
    &&& is_token(
        s.subrange(device_type_prefix().len() as int, s.len() as int),
        DEVICE_SUFFIX_LEN as nat,
    )
}

impl BridgeConfig {
    /// The device type that ends in `suffix`.
    pub fn device_type_with_suffix(suffix: &str) -> (device_type: String)
        ensures
            device_type@ == device_type_prefix() + suffix@,
            is_token(suffix@, DEVICE_SUFFIX_LEN as nat) ==> is_device_type(device_type@),
    {
        let mut device_type = "twitchbrite#".to_owned();
        device_type.append(suffix);
        proof {
            let p = device_type_prefix();
            assert(device_type@.subrange(0, p.len() as int) =~= p);
            assert(device_type@.subrange(p.len() as int, device_type@.len() as int) =~= suffix@);
        }
        device_type
    }

    /// A fresh device type: the prefix and five characters drawn at random.
    pub fn generate_device_type() -> (device_type: String)
        ensures
            is_device_type(device_type@),
    {
        let suffix = random_token(DEVICE_SUFFIX_LEN);
        Self::device_type_with_suffix(suffix.as_str())
    }

    /// The record of a bridge whose credential has been seen to work.
    pub fn from_bridge(device_type: String, bridge: &ValidatedBridge) -> (config: Self)
        ensures
            config@ == (BridgeConfigView {
                device_type: device_type@,
                bridge_ip: bridge@.ip,
                bridge_username: bridge@.username,
            }),
    {
        BridgeConfig {
            device_type,
            bridge_ip: bridge.ip(),
            bridge_username: bridge.username().clone(),
        }
    }

    /// The record with exactly these three values, as read back from a store.
    pub fn from_parts(
        device_type: String,
        bridge_ip: IpAddress,
        bridge_username: String,
    ) -> (config: Self)
        ensures
            config@ == (BridgeConfigView {
                device_type: device_type@,
                bridge_ip,
                bridge_username: bridge_username@,
            }),
    {
        BridgeConfig { device_type, bridge_ip, bridge_username }
    }

    pub fn device_type(&self) -> (device_type: &String)
        ensures
            device_type@ == self@.device_type,
    {
        &self.device_type
    }

    pub fn bridge_ip(&self) -> (bridge_ip: IpAddress)
        ensures
            bridge_ip == self@.bridge_ip,
    {
        self.bridge_ip
    }

    pub fn bridge_username(&self) -> (bridge_username: &String)
        ensures
            bridge_username@ == self@.bridge_username,
    {
        &self.bridge_username
    }

    /// The handle of the bridge that this record names, not yet seen to work.
    pub fn bridge(&self) -> (bridge: Bridge)
        ensures
            bridge@ == (BridgeView { ip: self@.bridge_ip, username: self@.bridge_username }),
    {
        Bridge { ip: self.bridge_ip, username: self.bridge_username.clone() }
    }
}

/// Settings of the chat side; none yet.
#[derive(Debug, Copy, Clone, PartialEq, Eq, Structural)]
pub struct TwitchConfig {}

/// Everything the program keeps between runs.
#[derive(Debug)]
pub struct Config {
    bridge_config: Option<BridgeConfig>,
    twitch_config: Option<TwitchConfig>,
}

/// The stored settings as plain values.
pub struct ConfigView {
    pub bridge_config: Option<BridgeConfigView>,
    pub twitch_config: Option<TwitchConfig>,
}

impl View for Config {
    type V = ConfigView;

    closed spec fn view(&self) -> ConfigView {
        ConfigView {
            bridge_config: match self.bridge_config {
                Some(bridge_config) => Some(bridge_config@),
                None => None,
            },
            twitch_config: self.twitch_config,
        }
    }
}

impl Config {
    /// Settings with nothing in them.
    pub fn new() -> (config: Self)
        ensures
            config@ == (ConfigView { bridge_config: None, twitch_config: None }),
    {
        Self { bridge_config: None, twitch_config: None }
    }

    /// Settings with exactly these two parts.
    pub fn from_parts(
        bridge_config: Option<BridgeConfig>,
        twitch_config: Option<TwitchConfig>,
    ) -> (config: Self)
        ensures
            config@.twitch_config == twitch_config,
            match bridge_config {
                Some(b) => config@.bridge_config == Some(b@),
                None => config@.bridge_config is None,
            },
    {
        Self { bridge_config, twitch_config }
    }

    pub fn bridge_config(&self) -> (bridge_config: &Option<BridgeConfig>)
        ensures
            match bridge_config {
                Some(b) => self@.bridge_config == Some(b@),
                None => self@.bridge_config is None,
            },
    {
        &self.bridge_config
    }

    /// The bridge record of the settings, taken out of them.
    pub fn into_bridge_config(self) -> (bridge_config: Option<BridgeConfig>)
        ensures
            match bridge_config {
                Some(b) => self@.bridge_config == Some(b@),
                None => self@.bridge_config is None,
            },
    {
        self.bridge_config
    }

    pub fn twitch_config(&self) -> (twitch_config: Option<TwitchConfig>)
        ensures
            twitch_config == self@.twitch_config,
    {
        self.twitch_config
    }
}

} // verus!
