//! Browser configurations: the typed capability set one remote session is
//! opened with, the fixed farm-mode matrix of OS/browser/device
//! combinations, the single synthetic local-mode configuration, and the
//! capability plan each session submits (with certificate acceptance always
//! force-enabled, since the asset server's certificate is self-signed).

use vstd::prelude::*;
use vstd::string::StringExecFns;

verus! {

/// One provider-scoped capability sub-option, passed through under the farm
/// provider's option namespace.
#[derive(Debug, PartialEq, Eq)]
pub struct CapabilityOption {
    pub key: String,
    pub value: String,
}

#[verifier::ext_equal]
pub struct CapOptionView {
    pub key: Seq<char>,
    pub value: Seq<char>,
}

impl View for CapabilityOption {
    type V = CapOptionView;

    open spec fn view(&self) -> CapOptionView {
        CapOptionView { key: self.key@, value: self.value@ }
    }
}

/// One entry of the browser matrix: a unique human-readable name, the
/// required browser field, and provider-scoped pass-through options.
/// Immutable once constructed.
#[derive(Debug, PartialEq, Eq)]
pub struct BrowserConfiguration {
    pub name: String,
    /// `None` only for the synthetic local configuration, whose capability
    /// set is empty.
    pub browser_name: Option<String>,
    pub browser_version: Option<String>,
    pub farm_options: Vec<CapabilityOption>,
}

#[verifier::ext_equal]
pub struct ConfigView {
    pub name: Seq<char>,
    pub browser_name: Option<Seq<char>>,
    pub browser_version: Option<Seq<char>>,
    pub farm_options: Seq<CapOptionView>,
}

impl View for BrowserConfiguration {
    type V = ConfigView;

    open spec fn view(&self) -> ConfigView {
        ConfigView {
            name: self.name@,
            browser_name: match self.browser_name {
                Some(b) => Some(b@),
                None => None,
            },
            browser_version: match self.browser_version {
                Some(v) => Some(v@),
                None => None,
            },
            farm_options: spec_options_view(self.farm_options@),
        }
    }
}

pub open spec fn spec_options_view(options: Seq<CapabilityOption>) -> Seq<CapOptionView> {
    options.map_values(|o: CapabilityOption| o@)
}

pub open spec fn spec_configs_view(configs: Seq<BrowserConfiguration>) -> Seq<ConfigView> {
    configs.map_values(|c: BrowserConfiguration| c@)
}

/// Required fields hold: a configuration has a non-empty name, and a farm
/// configuration names its browser.
pub open spec fn spec_config_wf(c: ConfigView) -> bool {
    &&& c.name.len() > 0
    &&& (c.browser_name matches Some(b) ==> b.len() > 0)
}

/// Why a configuration was rejected at construction.
#[derive(Debug, PartialEq, Eq)]
pub enum ConfigError {
    EmptyName,
    EmptyBrowserName,
}

/// Build a farm configuration, validating the required fields here rather
/// than letting a malformed capability payload surface later as a remote
/// connection error.
pub fn farm_configuration(
    name: String,
    browser_name: String,
    browser_version: Option<String>,
    farm_options: Vec<CapabilityOption>,
) -> (r: Result<BrowserConfiguration, ConfigError>)
    ensures
        r matches Ok(c) <==> name@.len() > 0 && browser_name@.len() > 0,
        name@.len() == 0 ==> (r matches Err(e) && e is EmptyName),
        name@.len() > 0 && browser_name@.len() == 0 ==> (r matches Err(e) && e is EmptyBrowserName),
        r matches Ok(c) ==> c@ == (ConfigView {
            name: name@,
            browser_name: Some(browser_name@),
            browser_version: match browser_version {
                Some(v) => Some(v@),
                None => None::<Seq<char>>,
            },
            farm_options: spec_options_view(farm_options@),
        }) && spec_config_wf(c@),
{
    if name.as_str().is_empty() {
        Err(ConfigError::EmptyName)
    } else if browser_name.as_str().is_empty() {
        Err(ConfigError::EmptyBrowserName)
    } else {
        Ok(BrowserConfiguration {
            name,
            browser_name: Some(browser_name),
            browser_version,
            farm_options,
        })
    }
}

/// The single synthetic configuration used in local mode: an empty
/// capability set under a fixed name.
pub fn local_configuration() -> (r: BrowserConfiguration)
    ensures
        r@ == (ConfigView {
            name: "local browser"@,
            browser_name: None::<Seq<char>>,
            browser_version: None::<Seq<char>>,
            farm_options: Seq::<CapOptionView>::empty(),
        }),
        spec_config_wf(r@),
{
    let r = BrowserConfiguration {
        name: String::from_str("local browser"),
        browser_name: None,
        browser_version: None,
        farm_options: Vec::new(),
    };
    proof {
        reveal_strlit("local browser");
        assert(r@.farm_options =~= Seq::<CapOptionView>::empty());
        assert(r@ =~~= (ConfigView {
            name: "local browser"@,
            browser_name: None::<Seq<char>>,
            browser_version: None::<Seq<char>>,
            farm_options: Seq::<CapOptionView>::empty(),
        }));
    }
    r
}

pub open spec fn spec_cap_option(key: Seq<char>, value: Seq<char>) -> CapOptionView {
    CapOptionView { key, value }
}

/// The fixed farm-mode browser matrix, in submission order.
pub open spec fn spec_farm_matrix() -> Seq<ConfigView> {
    seq![
        ConfigView {
            name: "OS X Monterey, Chrome"@,
            browser_name: Some("Chrome"@),
            browser_version: Some("latest"@),
            farm_options: seq![
                spec_cap_option("os"@, "OS X"@),
                spec_cap_option("osVersion"@, "Monterey"@),
                spec_cap_option("consoleLogs"@, "verbose"@),
            ],
        },
        ConfigView {
            name: "OS X Monterey, Edge"@,
            browser_name: Some("Edge"@),
            browser_version: Some("latest"@),
            farm_options: seq![
                spec_cap_option("os"@, "OS X"@),
                spec_cap_option("osVersion"@, "Monterey"@),
            ],
        },
        ConfigView {
            name: "Windows 11, Chrome"@,
            browser_name: Some("Chrome"@),
            browser_version: Some("latest"@),
            farm_options: seq![
                spec_cap_option("os"@, "Windows"@),
                spec_cap_option("osVersion"@, "11"@),
                spec_cap_option("consoleLogs"@, "verbose"@),
            ],
        },
        ConfigView {
            name: "Windows 11, Edge"@,
            browser_name: Some("Edge"@),
            browser_version: Some("latest"@),
            farm_options: seq![
                spec_cap_option("os"@, "Windows"@),
                spec_cap_option("osVersion"@, "11"@),
            ],
        },
        ConfigView {
            name: "Samsung Galaxy S21, Android 11.0"@,
            browser_name: Some("Android"@),
            browser_version: None::<Seq<char>>,
            farm_options: seq![
                spec_cap_option("osVersion"@, "11.0"@),
                spec_cap_option("deviceName"@, "Samsung Galaxy S21"@),
                spec_cap_option("appiumVersion"@, "1.22.0"@),
                spec_cap_option("consoleLogs"@, "verbose"@),
            ],
        },
    ]
}

fn cap_option(key: &str, value: &str) -> (r: CapabilityOption)
    ensures
        r@ == spec_cap_option(key@, value@),
{
    CapabilityOption { key: String::from_str(key), value: String::from_str(value) }
}

/// Build the full farm-mode matrix, exactly `spec_farm_matrix`.
pub fn farm_matrix() -> (r: Vec<BrowserConfiguration>)
    ensures
        spec_configs_view(r@) == spec_farm_matrix(),
        r@.len() == 5,
{
    let mut r: Vec<BrowserConfiguration> = Vec::new();

    let mut opts: Vec<CapabilityOption> = Vec::new();
    opts.push(cap_option("os", "OS X"));
    opts.push(cap_option("osVersion", "Monterey"));
    opts.push(cap_option("consoleLogs", "verbose"));
    r.push(BrowserConfiguration {
        name: String::from_str("OS X Monterey, Chrome"),
        browser_name: Some(String::from_str("Chrome")),
        browser_version: Some(String::from_str("latest")),
        farm_options: opts,
    });

    let mut opts: Vec<CapabilityOption> = Vec::new();
    opts.push(cap_option("os", "OS X"));
    opts.push(cap_option("osVersion", "Monterey"));
    r.push(BrowserConfiguration {
        name: String::from_str("OS X Monterey, Edge"),
        browser_name: Some(String::from_str("Edge")),
        browser_version: Some(String::from_str("latest")),
        farm_options: opts,
    });

    let mut opts: Vec<CapabilityOption> = Vec::new();
    opts.push(cap_option("os", "Windows"));
    opts.push(cap_option("osVersion", "11"));
    opts.push(cap_option("consoleLogs", "verbose"));
    r.push(BrowserConfiguration {
        name: String::from_str("Windows 11, Chrome"),
        browser_name: Some(String::from_str("Chrome")),
        browser_version: Some(String::from_str("latest")),
        farm_options: opts,
    });

    let mut opts: Vec<CapabilityOption> = Vec::new();
    opts.push(cap_option("os", "Windows"));
    opts.push(cap_option("osVersion", "11"));
    r.push(BrowserConfiguration {
        name: String::from_str("Windows 11, Edge"),
        browser_name: Some(String::from_str("Edge")),
        browser_version: Some(String::from_str("latest")),
        farm_options: opts,
    });

    let mut opts: Vec<CapabilityOption> = Vec::new();
    opts.push(cap_option("osVersion", "11.0"));
    opts.push(cap_option("deviceName", "Samsung Galaxy S21"));
    opts.push(cap_option("appiumVersion", "1.22.0"));
    opts.push(cap_option("consoleLogs", "verbose"));
    r.push(BrowserConfiguration {
        name: String::from_str("Samsung Galaxy S21, Android 11.0"),
        browser_name: Some(String::from_str("Android")),
        browser_version: None,
        farm_options: opts,
    });

    proof {
        assert(spec_configs_view(r@) =~~= spec_farm_matrix());
    }
    r
}

/// Every matrix entry satisfies the required-field validation.
pub proof fn lemma_farm_matrix_wf()
    ensures
        forall|i: int| 0 <= i < spec_farm_matrix().len() ==> spec_config_wf(
            #[trigger] spec_farm_matrix()[i],
        ),
{
    reveal_strlit("OS X Monterey, Chrome");
    reveal_strlit("OS X Monterey, Edge");
    reveal_strlit("Windows 11, Chrome");
    reveal_strlit("Windows 11, Edge");
    reveal_strlit("Samsung Galaxy S21, Android 11.0");
    reveal_strlit("Chrome");
    reveal_strlit("Edge");
    reveal_strlit("Android");
    assert forall|i: int| 0 <= i < spec_farm_matrix().len() implies spec_config_wf(
        #[trigger] spec_farm_matrix()[i],
    ) by {
        assert(spec_farm_matrix()[i].name.len() > 0);
    }
}

/// The capability payload one session is opened with: certificate
/// acceptance, the browser fields, and the provider options (extended, in
/// farm mode, with the provider's fixed defaults and the tunnel identifier).
pub struct CapabilityPlan {
    /// Always `true`: the asset server's certificate is self-signed, so
    /// every session must be told to accept it.
    pub accept_ssl_certs: bool,
    pub browser_name: Option<String>,
    pub browser_version: Option<String>,
    pub farm_options: Vec<CapabilityOption>,
}

/// The provider defaults appended to every farm-mode configuration, in
/// order, ending with the local-tunnel identifier.
pub open spec fn spec_farm_default_options(local_identifier: Seq<char>) -> Seq<CapOptionView> {
    seq![
        spec_cap_option("projectName"@, "Zaplib"@),
        spec_cap_option("buildName"@, "test_suite"@),
        spec_cap_option("local"@, "true"@),
        spec_cap_option("networkLogs"@, "true"@),
        spec_cap_option("seleniumVersion"@, "3.5.2"@),
        spec_cap_option("localIdentifier"@, local_identifier),
    ]
}

/// Build the capability payload for one session. Certificate acceptance is
/// force-enabled unconditionally; with a farm tunnel identifier present, the
/// provider defaults and the identifier are appended after the
/// configuration's own options.
pub fn capability_plan(config: BrowserConfiguration, farm_local_identifier: Option<String>) -> (r:
    CapabilityPlan)
    ensures
        r.accept_ssl_certs,
        r.browser_name == config.browser_name,
        r.browser_version == config.browser_version,
        match farm_local_identifier {
            Some(id) => spec_options_view(r.farm_options@) == spec_options_view(
                config.farm_options@,
            ) + spec_farm_default_options(id@),
            None => spec_options_view(r.farm_options@) == spec_options_view(config.farm_options@),
        },
{
    let BrowserConfiguration { name: _, browser_name, browser_version, mut farm_options } = config;
    match farm_local_identifier {
        Some(id) => {
            farm_options.push(cap_option("projectName", "Zaplib"));
            farm_options.push(cap_option("buildName", "test_suite"));
            farm_options.push(cap_option("local", "true"));
            farm_options.push(cap_option("networkLogs", "true"));
            farm_options.push(cap_option("seleniumVersion", "3.5.2"));
            farm_options.push(CapabilityOption {
                key: String::from_str("localIdentifier"),
                value: id,
            });
            proof {
                assert(spec_options_view(farm_options@) =~~= spec_options_view(
                    config.farm_options@,
                ) + spec_farm_default_options(farm_local_identifier->Some_0@));
            }
            CapabilityPlan {
                accept_ssl_certs: true,
                browser_name,
                browser_version,
                farm_options,
            }
        },
        None => {
            CapabilityPlan { accept_ssl_certs: true, browser_name, browser_version, farm_options }
        },
    }
}

} // verus!
