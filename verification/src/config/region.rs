//! The closed set of regions and what is wired for each of them.

use crate::text::{lowercase_of, str_eq, texts, to_lowercase};
use vstd::prelude::*;
use vstd::string::StringExecFns;

verus! {

/// Log endpoint of the international deployment.
pub const I18N_LOG_SERVICE_URL: &'static str =
    "https://logservice-sg.tiktok-row.org/streamlog/platform/microservice/v1/query/trace";

/// Log endpoint of the United States deployment.
pub const US_LOG_SERVICE_URL: &'static str =
    "https://logservice-tx.tiktok-us.org/streamlog/platform/microservice/v1/query/trace";

/// Token endpoint of mainland China.
pub const CN_AUTH_URL: &'static str = "https://cloud.bytedance.net/auth/api/v1/jwt";

/// Token endpoint of the international deployment.
pub const I18N_AUTH_URL: &'static str = "https://cloud-i18n.bytedance.net/auth/api/v1/jwt";

/// Token endpoint of the United States deployment.
pub const US_AUTH_URL: &'static str = "https://cloud-ttp-us.bytedance.net/auth/api/v1/jwt";

/// A deployment of the log service.
#[derive(Debug, Clone, Copy, PartialEq, Eq, Hash, Structural)]
pub enum Region {
    /// Mainland China.
    Cn,
    /// International deployment, hosted in Singapore.
    I18n,
    /// United States.
    Us,
}

impl Region {
    /// The region that a canonical key stands for, if any.
    pub open spec fn of_key(key: Seq<char>) -> Option<Region> {
        if key == "cn"@ {
            Some(Region::Cn)
        } else if key == "i18n"@ {
            Some(Region::I18n)
        } else if key == "us"@ {
            Some(Region::Us)
        } else {
            None
        }
    }

    /// The canonical key of a region.
    pub open spec fn key(self) -> Seq<char> {
        match self {
            Region::Cn => "cn"@,
            Region::I18n => "i18n"@,
            Region::Us => "us"@,
        }
    }

    /// The name of the variable that holds the session credential of a region.
    pub open spec fn credential_variable(self) -> Seq<char> {
        match self {
            Region::Cn => "CAS_SESSION_CN"@,
            Region::I18n => "CAS_SESSION_I18n"@,
            Region::Us => "CAS_SESSION_US"@,
        }
    }

    /// The name under which a region is shown to people.
    pub open spec fn shown_name(self) -> Seq<char> {
        match self {
            Region::Cn => "中国区"@,
            Region::I18n => "国际化区域（新加坡）"@,
            Region::Us => "美区"@,
        }
    }

    /// The token endpoint of a region.
    pub open spec fn auth_endpoint(self) -> Seq<char> {
        match self {
            Region::Cn => CN_AUTH_URL@,
            Region::I18n => I18N_AUTH_URL@,
            Region::Us => US_AUTH_URL@,
        }
    }

    /// Looks a canonical key up; the key is taken as it is, in lower case.
    pub fn from_key(key: &str) -> (region: Option<Region>)
        ensures
            region == Region::of_key(key@),
    {
        if str_eq(key, "cn") {
            Some(Region::Cn)
        } else if str_eq(key, "i18n") {
            Some(Region::I18n)
        } else if str_eq(key, "us") {
            Some(Region::Us)
        } else {
            None
        }
    }

    /// Parses a region name, ignoring letter case.
    pub fn from_str(region: &str) -> (parsed: Option<Region>)
        ensures
            parsed == Region::of_key(lowercase_of(region@)),
    {
        let lower = to_lowercase(region);
        Region::from_key(lower.as_str())
    }

    /// The canonical key, as used on the command line and in results.
    pub fn as_str(&self) -> (key: &'static str)
        ensures
            key@ == self.key(),
    {
        match self {
            Region::Cn => "cn",
            Region::I18n => "i18n",
            Region::Us => "us",
        }
    }

    /// The variable that holds this region's own session credential.
    pub fn cas_session_env_var(&self) -> (name: &'static str)
        ensures
            name@ == self.credential_variable(),
    {
        match self {
            Region::Cn => "CAS_SESSION_CN",
            Region::I18n => "CAS_SESSION_I18n",
            Region::Us => "CAS_SESSION_US",
        }
    }

    /// The name under which the region is shown to people.
    pub fn display_name(&self) -> (name: &'static str)
        ensures
            name@ == self.shown_name(),
    {
        match self {
            Region::Cn => "中国区",
            Region::I18n => "国际化区域（新加坡）",
            Region::Us => "美区",
        }
    }

    /// The endpoint that exchanges a session credential for a bearer token.
    pub fn auth_url(&self) -> (url: &'static str)
        ensures
            url@ == self.auth_endpoint(),
    {
        match self {
            Region::Cn => CN_AUTH_URL,
            Region::I18n => I18N_AUTH_URL,
            Region::Us => US_AUTH_URL,
        }
    }
}

/// Every key names the region it was taken from, so no two regions share a key.
pub proof fn lemma_key_round_trip(region: Region)
    ensures
        Region::of_key(region.key()) == Some(region),
{
    reveal_strlit("cn");
    reveal_strlit("i18n");
    reveal_strlit("us");
    assert("cn"@.len() == 2 && "i18n"@.len() == 4 && "us"@.len() == 2);
    assert("cn"@[0] == 'c' && "us"@[0] == 'u');
}

/// What is wired for one region.
#[derive(Debug)]
pub struct RegionConfig {
    /// The region this entry belongs to.
    pub region: Region,
    /// The endpoint that answers log queries; empty where none is wired.
    pub log_service_url: String,
    /// The routing string that the log service expects for this region.
    pub vregion: String,
    /// The zones that make up the region.
    pub zones: Vec<String>,
    /// Whether a log endpoint is wired for the region.
    pub configured: bool,
}

/// The mathematical content of a [`RegionConfig`].
pub struct RegionConfigView {
    pub region: Region,
    pub log_service_url: Seq<char>,
    pub vregion: Seq<char>,
    pub zones: Seq<Seq<char>>,
    pub configured: bool,
}

impl View for RegionConfig {
    type V = RegionConfigView;

    open spec fn view(&self) -> RegionConfigView {
        RegionConfigView {
            region: self.region,
            log_service_url: self.log_service_url@,
            vregion: self.vregion@,
            zones: texts(self.zones@),
            configured: self.configured,
        }
    }
}

impl Clone for RegionConfig {
    fn clone(&self) -> (copy: Self)
        ensures
            copy@ == self@,
    {
        let mut zones: Vec<String> = Vec::new();
        let mut i: usize = 0;
        while i < self.zones.len()
            invariant
                i <= self.zones.len(),
                zones@.len() == i,
                forall|j: int| 0 <= j < i ==> zones@[j]@ == self.zones@[j]@,
            decreases self.zones.len() - i,
        {
            zones.push(self.zones[i].clone());
            i += 1;
        }
        assert(texts(zones@) =~= texts(self.zones@));
        RegionConfig {
            region: self.region,
            log_service_url: self.log_service_url.clone(),
            vregion: self.vregion.clone(),
            zones,
            configured: self.configured,
        }
    }
}

impl RegionConfig {
    /// The registry entry of a region: the international and United States
    /// deployments are wired, mainland China is known but has no log endpoint.
    pub open spec fn registered(region: Region) -> RegionConfigView {
        match region {
            Region::Cn => RegionConfigView {
                region,
                log_service_url: Seq::empty(),
                vregion: Seq::empty(),
                zones: Seq::empty(),
                configured: false,
            },
            Region::I18n => RegionConfigView {
                region,
                log_service_url: I18N_LOG_SERVICE_URL@,
                vregion: "Singapore-Common,US-East,Singapore-Central"@,
                zones: seq!["Singapore-Common"@, "US-East"@, "Singapore-Central"@],
                configured: true,
            },
            Region::Us => RegionConfigView {
                region,
                log_service_url: US_LOG_SERVICE_URL@,
                vregion: "US-TTP,US-TTP2"@,
                zones: seq!["US-TTP"@, "US-TTP2"@],
                configured: true,
            },
        }
    }

    /// An entry for a region with a log endpoint.
    pub fn new(region: Region, log_service_url: String, vregion: String, zones: Vec<String>) -> (config: Self)
        ensures
            config.region == region,
            config.log_service_url == log_service_url,
            config.vregion == vregion,
            config.zones == zones,
            config.configured,
    {
        RegionConfig { region, log_service_url, vregion, zones, configured: true }
    }

    /// An entry for a region that is known but has no log endpoint.
    pub fn unconfigured(region: Region) -> (config: Self)
        ensures
            config@ == (RegionConfigView {
                region,
                log_service_url: Seq::empty(),
                vregion: Seq::empty(),
                zones: Seq::empty(),
                configured: false,
            }),
    {
        let config = RegionConfig {
            region,
            log_service_url: String::new(),
            vregion: String::new(),
            zones: Vec::new(),
            configured: false,
        };
        assert(texts(config.zones@) =~= Seq::<Seq<char>>::empty());
        config
    }

    /// Whether a log endpoint is wired for the region.
    pub fn is_configured(&self) -> (configured: bool)
        ensures
            configured == self.configured,
    {
        self.configured
    }

    /// The registry entry of a region.
    pub fn for_region(region: Region) -> (config: Self)
        ensures
            config@ == RegionConfig::registered(region),
    {
        match region {
            Region::Cn => RegionConfig::unconfigured(Region::Cn),
            Region::I18n => {
                let mut zones: Vec<String> = Vec::new();
                zones.push(String::from_str("Singapore-Common"));
                zones.push(String::from_str("US-East"));
                zones.push(String::from_str("Singapore-Central"));
                assert(texts(zones@) =~= seq![
                    "Singapore-Common"@,
                    "US-East"@,
                    "Singapore-Central"@,
                ]);
                RegionConfig::new(
                    Region::I18n,
                    String::from_str(I18N_LOG_SERVICE_URL),
                    String::from_str("Singapore-Common,US-East,Singapore-Central"),
                    zones,
                )
            },
            Region::Us => {
                let mut zones: Vec<String> = Vec::new();
                zones.push(String::from_str("US-TTP"));
                zones.push(String::from_str("US-TTP2"));
                assert(texts(zones@) =~= seq!["US-TTP"@, "US-TTP2"@]);
                RegionConfig::new(
                    Region::Us,
                    String::from_str(US_LOG_SERVICE_URL),
                    String::from_str("US-TTP,US-TTP2"),
                    zones,
                )
            },
        }
    }
}

/// Looks a region up by name, ignoring letter case: `None` for a name outside
/// the closed set, else the registry entry, wired or not.
pub fn get_region_config(region_str: &str) -> (config: Option<RegionConfig>)
    ensures
        match Region::of_key(lowercase_of(region_str@)) {
            Some(region) => config matches Some(c) && c@ == RegionConfig::registered(region),
            None => config is None,
        },
{
    match Region::from_str(region_str) {
        Some(region) => Some(RegionConfig::for_region(region)),
        None => None,
    }
}

} // verus!
