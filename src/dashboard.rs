//! The read-only dashboard's menu: its entries and the cursor over them.
use vstd::prelude::*;

use crate::catalog::{curated_models_for_provider, default_model_for_provider, ProviderCatalog};
use crate::config::{ChannelsConfig, ConfigDocument};
use crate::text::trimmed;

verus! {

pub open spec fn digit_char(d: nat) -> char {
    if d == 0 {
        '0'
    } else if d == 1 {
        '1'
    } else if d == 2 {
        '2'
    } else if d == 3 {
        '3'
    } else if d == 4 {
        '4'
    } else if d == 5 {
        '5'
    } else if d == 6 {
        '6'
    } else if d == 7 {
        '7'
    } else if d == 8 {
        '8'
    } else {
        '9'
    }
}

/// The decimal digits of `n`, most significant first, as `{}` prints an integer.
pub open spec fn decimal(n: nat) -> Seq<char>
    decreases n,
{
    if n < 10 {
        seq![digit_char(n)]
    } else {
        decimal(n / 10).push(digit_char(n % 10))
    }
}

pub open spec fn on_off(b: bool) -> Seq<char> {
    if b {
        "on"@
    } else {
        "off"@
    }
}

pub open spec fn yes_no(b: bool) -> Seq<char> {
    if b {
        "yes"@
    } else {
        "no"@
    }
}

pub open spec fn text_or_else(o: Option<String>, fallback: Seq<char>) -> Seq<char> {
    match o {
        Some(s) => s@,
        None => fallback,
    }
}

fn digit_text(d: u64) -> (r: &'static str)
    requires
        d < 10,
    ensures
        r@ == seq![digit_char(d as nat)],
{
    proof {
        reveal_strlit("0");
        reveal_strlit("1");
        reveal_strlit("2");
        reveal_strlit("3");
        reveal_strlit("4");
        reveal_strlit("5");
        reveal_strlit("6");
        reveal_strlit("7");
        reveal_strlit("8");
        reveal_strlit("9");
    }
    let r = match d {
        0 => "0",
        1 => "1",
        2 => "2",
        3 => "3",
        4 => "4",
        5 => "5",
        6 => "6",
        7 => "7",
        8 => "8",
        _ => "9",
    };
    proof {
        assert(r@ =~= seq![digit_char(d as nat)]);
    }
    r
}

/// `n` in decimal.
pub fn decimal_text(n: u64) -> (r: String)
    ensures
        r@ == decimal(n as nat),
    decreases n,
{
    if n < 10 {
        String::from_str(digit_text(n))
    } else {
        let head = decimal_text(n / 10);
        let r = head.concat(digit_text(n % 10));
        proof {
            assert(r@ =~= decimal((n / 10) as nat).push(digit_char((n % 10) as nat)));
        }
        r
    }
}

fn on_off_text(b: bool) -> (r: &'static str)
    ensures
        r@ == on_off(b),
{
    if b {
        "on"
    } else {
        "off"
    }
}

fn yes_no_text(b: bool) -> (r: &'static str)
    ensures
        r@ == yes_no(b),
{
    if b {
        "yes"
    } else {
        "no"
    }
}

fn text_or(o: &Option<String>, fallback: &str) -> (r: String)
    ensures
        r@ == text_or_else(*o, fallback@),
{
    match o {
        Some(s) => s.clone(),
        None => String::from_str(fallback),
    }
}

fn labelled(label: &str, value: &str) -> (r: String)
    ensures
        r@ == label@ + value@,
{
    String::from_str(label).concat(value)
}

#[derive(Clone, Copy, Debug, PartialEq, Eq, Structural)]
pub enum MenuItem {
    Home,
    Status,
    Providers,
    ConfigSchema,
    EstopStatus,
    Channels,
    ChannelDoctor,
    AuthProfiles,
    ModelsList,
    ModelsStatus,
    ModelsRefresh,
    DoctorFull,
    DoctorModels,
    Doctor,
    MemoryList,
    MemoryStats,
    HardwareDiscover,
    PeripheralList,
}

/// The menu entries, in the order the dashboard shows them.
pub open spec fn menu_order() -> Seq<MenuItem> {
    seq![
        MenuItem::Home,
        MenuItem::Status,
        MenuItem::Providers,
        MenuItem::ConfigSchema,
        MenuItem::EstopStatus,
        MenuItem::Channels,
        MenuItem::ChannelDoctor,
        MenuItem::AuthProfiles,
        MenuItem::ModelsList,
        MenuItem::ModelsStatus,
        MenuItem::ModelsRefresh,
        MenuItem::DoctorFull,
        MenuItem::DoctorModels,
        MenuItem::Doctor,
        MenuItem::MemoryList,
        MenuItem::MemoryStats,
        MenuItem::HardwareDiscover,
        MenuItem::PeripheralList,
    ]
}

pub open spec fn spec_title(item: MenuItem) -> Seq<char> {
    match item {
        MenuItem::Home => "Home"@,
        MenuItem::Status => "Status"@,
        MenuItem::Providers => "Providers"@,
        MenuItem::ConfigSchema => "Config Schema"@,
        MenuItem::EstopStatus => "Estop Status"@,
        MenuItem::Channels => "Channels"@,
        MenuItem::ChannelDoctor => "Channel Doctor (run)"@,
        MenuItem::AuthProfiles => "Auth Profiles"@,
        MenuItem::ModelsList => "Models List"@,
        MenuItem::ModelsStatus => "Models Status"@,
        MenuItem::ModelsRefresh => "Models Refresh (run)"@,
        MenuItem::DoctorFull => "Doctor (run)"@,
        MenuItem::DoctorModels => "Doctor Models (run)"@,
        MenuItem::Doctor => "Doctor (readonly)"@,
        MenuItem::MemoryList => "Memory List (run)"@,
        MenuItem::MemoryStats => "Memory Stats"@,
        MenuItem::HardwareDiscover => "Hardware Discover (run)"@,
        MenuItem::PeripheralList => "Peripheral List (run)"@,
    }
}

impl MenuItem {
    /// The label the menu shows for the entry.
    pub fn title(self) -> (r: &'static str)
        ensures
            r@ == spec_title(self),
    {
        match self {
            MenuItem::Home => "Home",
            MenuItem::Status => "Status",
            MenuItem::Providers => "Providers",
            MenuItem::ConfigSchema => "Config Schema",
            MenuItem::EstopStatus => "Estop Status",
            MenuItem::Channels => "Channels",
            MenuItem::ChannelDoctor => "Channel Doctor (run)",
            MenuItem::AuthProfiles => "Auth Profiles",
            MenuItem::ModelsList => "Models List",
            MenuItem::ModelsStatus => "Models Status",
            MenuItem::ModelsRefresh => "Models Refresh (run)",
            MenuItem::DoctorFull => "Doctor (run)",
            MenuItem::DoctorModels => "Doctor Models (run)",
            MenuItem::Doctor => "Doctor (readonly)",
            MenuItem::MemoryList => "Memory List (run)",
            MenuItem::MemoryStats => "Memory Stats",
            MenuItem::HardwareDiscover => "Hardware Discover (run)",
            MenuItem::PeripheralList => "Peripheral List (run)",
        }
    }
}

/// The dashboard: its menu with a cursor, and the lines of the last command's output.
pub struct AppState {
    pub menu: Option<usize>,
    pub items: Vec<MenuItem>,
    pub output: Vec<String>,
}

impl AppState {
    /// Every menu entry, the cursor on the first, and a greeting as output.
    pub fn new() -> (r: AppState)
        ensures
            r.menu == Some(0usize),
            r.items@ == menu_order(),
            r.output.deep_view() == seq![
                "ZeroClaw TUI Dashboard"@,
                ""@,
                "Use ↑/↓ to select, Enter to run, q to quit."@,
            ],
    {
        let items = vec![
            MenuItem::Home,
            MenuItem::Status,
            MenuItem::Providers,
            MenuItem::ConfigSchema,
            MenuItem::EstopStatus,
            MenuItem::Channels,
            MenuItem::ChannelDoctor,
            MenuItem::AuthProfiles,
            MenuItem::ModelsList,
            MenuItem::ModelsStatus,
            MenuItem::ModelsRefresh,
            MenuItem::DoctorFull,
            MenuItem::DoctorModels,
            MenuItem::Doctor,
            MenuItem::MemoryList,
            MenuItem::MemoryStats,
            MenuItem::HardwareDiscover,
            MenuItem::PeripheralList,
        ];
        let output = vec![
            String::from_str("ZeroClaw TUI Dashboard"),
            String::from_str(""),
            String::from_str("Use ↑/↓ to select, Enter to run, q to quit."),
        ];
        proof {
            assert(items@ =~= menu_order());
            assert(output.deep_view() =~= seq![
                "ZeroClaw TUI Dashboard"@,
                ""@,
                "Use ↑/↓ to select, Enter to run, q to quit."@,
            ]);
        }
        AppState { menu: Some(0), items, output }
    }

    /// The entry under the cursor; `Home` where the cursor is on no entry.
    pub fn selected_item(&self) -> (r: MenuItem)
        ensures
            ({
                let i = match self.menu {
                    Some(i) => i,
                    None => 0,
                };
                r == if i < self.items@.len() {
                    self.items@[i as int]
                } else {
                    MenuItem::Home
                }
            }),
    {
        let index = match self.menu {
            Some(i) => i,
            None => 0,
        };
        if index < self.items.len() {
            self.items[index]
        } else {
            MenuItem::Home
        }
    }

    /// Moves the cursor one entry up, staying on the first.
    pub fn move_up(&mut self)
        ensures
            final(self).menu == Some(
                (match old(self).menu {
                    Some(i) => if i > 0 {
                        i - 1
                    } else {
                        0
                    },
                    None => 0,
                }) as usize,
            ),
            final(self).items == old(self).items,
            final(self).output == old(self).output,
    {
        let current = match self.menu {
            Some(i) => i,
            None => 0,
        };
        self.menu = Some(if current > 0 {
            current - 1
        } else {
            0
        });
    }

    /// Moves the cursor one entry down, staying on the last.
    pub fn move_down(&mut self)
        ensures
            ({
                let current = match old(self).menu {
                    Some(i) => i as int,
                    None => 0,
                };
                let last = if old(self).items@.len() > 0 {
                    old(self).items@.len() - 1
                } else {
                    0
                };
                final(self).menu == Some(
                    (if current + 1 < last {
                        current + 1
                    } else {
                        last
                    }) as usize,
                )
            }),
            final(self).items == old(self).items,
            final(self).output == old(self).output,
    {
        let current = match self.menu {
            Some(i) => i,
            None => 0,
        };
        let last = if self.items.len() > 0 {
            self.items.len() - 1
        } else {
            0
        };
        self.menu = Some(if current < last {
            current + 1
        } else {
            last
        });
    }
}

/// The status view: version, paths, provider, model, memory backend and auto-save.
pub fn status_lines(config: &ConfigDocument, version: &str, effective_memory_backend: &str) -> (r:
    Vec<String>)
    ensures
        r.deep_view() == seq![
            "Status"@,
            ""@,
            "Version: "@ + version@,
            "Workspace: "@ + config.workspace_dir@,
            "Config: "@ + config.config_path@,
            "Provider: "@ + text_or_else(config.default_provider, "openrouter"@),
            "Model: "@ + text_or_else(config.default_model, "(default)"@),
            "Memory backend: "@ + effective_memory_backend@,
            "Auto-save: "@ + on_off(config.memory.auto_save),
        ],
{
    let r = vec![
        String::from_str("Status"),
        String::from_str(""),
        labelled("Version: ", version),
        labelled("Workspace: ", config.workspace_dir.as_str()),
        labelled("Config: ", config.config_path.as_str()),
        labelled("Provider: ", text_or(&config.default_provider, "openrouter").as_str()),
        labelled("Model: ", text_or(&config.default_model, "(default)").as_str()),
        labelled("Memory backend: ", effective_memory_backend),
        labelled("Auto-save: ", on_off_text(config.memory.auto_save)),
    ];
    proof {
        assert(r.deep_view() =~= seq![
            "Status"@,
            ""@,
            "Version: "@ + version@,
            "Workspace: "@ + config.workspace_dir@,
            "Config: "@ + config.config_path@,
            "Provider: "@ + text_or_else(config.default_provider, "openrouter"@),
            "Model: "@ + text_or_else(config.default_model, "(default)"@),
            "Memory backend: "@ + effective_memory_backend@,
            "Auto-save: "@ + on_off(config.memory.auto_save),
        ]);
    }
    r
}

/// The memory view: backend, auto-save, retention, embedding and workspace.
pub fn memory_stats_lines(config: &ConfigDocument) -> (r: Vec<String>)
    ensures
        r.deep_view() == seq![
            "Memory Stats"@,
            ""@,
            "Backend: "@ + config.memory.backend@,
            "Auto-save: "@ + on_off(config.memory.auto_save),
            "Retention days: "@ + decimal(config.memory.conversation_retention_days as nat),
            "Embedding: "@ + config.memory.embedding_provider@ + "/"@ + config.memory.embedding_model@
                + " (dim="@ + decimal(config.memory.embedding_dimensions as nat) + ")"@,
            "Workspace: "@ + config.workspace_dir@,
        ],
{
    let m = &config.memory;
    let embedding = String::from_str("Embedding: ").concat(m.embedding_provider.as_str()).concat(
        "/",
    ).concat(m.embedding_model.as_str()).concat(" (dim=").concat(
        decimal_text(m.embedding_dimensions as u64).as_str(),
    ).concat(")");
    let r = vec![
        String::from_str("Memory Stats"),
        String::from_str(""),
        labelled("Backend: ", m.backend.as_str()),
        labelled("Auto-save: ", on_off_text(m.auto_save)),
        labelled(
            "Retention days: ",
            decimal_text(m.conversation_retention_days as u64).as_str(),
        ),
        embedding,
        labelled("Workspace: ", config.workspace_dir.as_str()),
    ];
    proof {
        assert(r.deep_view() =~= seq![
            "Memory Stats"@,
            ""@,
            "Backend: "@ + config.memory.backend@,
            "Auto-save: "@ + on_off(config.memory.auto_save),
            "Retention days: "@ + decimal(config.memory.conversation_retention_days as nat),
            "Embedding: "@ + config.memory.embedding_provider@ + "/"@ + config.memory.embedding_model@
                + " (dim="@ + decimal(config.memory.embedding_dimensions as nat) + ")"@,
            "Workspace: "@ + config.workspace_dir@,
        ]);
    }
    r
}

/// The provider the dashboard reports on: the configured one, trimmed, or `openrouter`.
pub open spec fn reported_provider(config: ConfigDocument) -> Seq<char> {
    trimmed(text_or_else(config.default_provider, "openrouter"@))
}

fn reported_provider_text(config: &ConfigDocument) -> (r: String)
    ensures
        r@ == reported_provider(*config),
{
    crate::text::trim(text_or(&config.default_provider, "openrouter").as_str())
}

/// The model view: provider, configured model and how many models the catalog curates.
pub fn models_status_lines(config: &ConfigDocument, catalog: &ProviderCatalog) -> (r: Vec<String>)
    ensures
        r.deep_view() == seq![
            "Models Status"@,
            ""@,
            "Provider: "@ + reported_provider(*config),
            "Configured model: "@ + text_or_else(
                config.default_model,
                catalog.spec_default_model(reported_provider(*config)),
            ),
            "Curated entries: "@ + decimal(catalog.spec_curated(reported_provider(*config)).len()),
        ],
{
    let provider = reported_provider_text(config);
    let selected = match &config.default_model {
        Some(m) => m.clone(),
        None => default_model_for_provider(catalog, provider.as_str()),
    };
    let curated = curated_models_for_provider(catalog, provider.as_str());
    let r = vec![
        String::from_str("Models Status"),
        String::from_str(""),
        labelled("Provider: ", provider.as_str()),
        labelled("Configured model: ", selected.as_str()),
        labelled("Curated entries: ", decimal_text(curated.len() as u64).as_str()),
    ];
    proof {
        assert(curated.deep_view().len() == curated@.len());
        assert(r.deep_view() =~= seq![
            "Models Status"@,
            ""@,
            "Provider: "@ + reported_provider(*config),
            "Configured model: "@ + text_or_else(
                config.default_model,
                catalog.spec_default_model(reported_provider(*config)),
            ),
            "Curated entries: "@ + decimal(catalog.spec_curated(reported_provider(*config)).len()),
        ]);
    }
    r
}

/// One entry of the curated model list: its position from one, its id and its description.
pub open spec fn model_entry(i: int, m: (Seq<char>, Seq<char>)) -> Seq<char> {
    decimal((i + 1) as nat) + ". "@ + m.0 + " — "@ + m.1
}

/// The curated model list: a header, then at most the first 20 curated models, or a note
/// that there are none.
pub fn models_list_lines(config: &ConfigDocument, catalog: &ProviderCatalog) -> (r: Vec<String>)
    ensures
        ({
            let p = reported_provider(*config);
            let curated = catalog.spec_curated(p);
            let shown = if curated.len() > 20 {
                20
            } else {
                curated.len() as int
            };
            let header = seq![
                "Models List (curated)"@,
                ""@,
                "Provider: "@ + p,
                "Curated models: "@ + decimal(curated.len()),
            ];
            r.deep_view() == if shown == 0 {
                header.push("No curated models available."@)
            } else {
                header + Seq::new(shown as nat, |i: int| model_entry(i, curated[i]))
            }
        }),
{
    let provider = reported_provider_text(config);
    let models = curated_models_for_provider(catalog, provider.as_str());
    let ghost curated = models.deep_view();
    let mut r = vec![
        String::from_str("Models List (curated)"),
        String::from_str(""),
        labelled("Provider: ", provider.as_str()),
        labelled("Curated models: ", decimal_text(models.len() as u64).as_str()),
    ];
    let ghost header = r.deep_view();
    let shown: usize = if models.len() > 20 {
        20
    } else {
        models.len()
    };
    let mut i: usize = 0;
    while i < shown
        invariant
            shown <= models@.len(),
            curated == models.deep_view(),
            i <= shown,
            r.deep_view() == header + Seq::new(i as nat, |k: int| model_entry(k, curated[k])),
        decreases shown - i,
    {
        let line = decimal_text((i + 1) as u64).concat(". ").concat(models[i].0.as_str()).concat(
            " — ",
        ).concat(models[i].1.as_str());
        proof {
            assert(curated[i as int] == (models@[i as int].0@, models@[i as int].1@));
            assert(line@ == model_entry(i as int, curated[i as int]));
        }
        let ghost before = r.deep_view();
        r.push(line);
        proof {
            assert(r.deep_view() =~= before.push(model_entry(i as int, curated[i as int])));
            assert(r.deep_view() =~= header + Seq::new(
                (i + 1) as nat,
                |k: int| model_entry(k, curated[k]),
            ));
        }
        i = i + 1;
    }
    if shown == 0 {
        r.push(String::from_str("No curated models available."));
        proof {
            assert(r.deep_view() =~= header.push("No curated models available."@));
        }
    } else {
        proof {
            assert(header + Seq::new(0, |k: int| model_entry(k, curated[k])) =~= header);
        }
    }
    r
}

/// The channels in the order the dashboard lists them, with whether each is configured.
pub open spec fn channel_states(c: ChannelsConfig) -> Seq<(Seq<char>, bool)> {
    seq![
        ("Telegram"@, c.telegram is Some),
        ("Discord"@, c.discord is Some),
        ("Slack"@, c.slack is Some),
        ("Webhook"@, c.webhook is Some),
        ("iMessage"@, c.imessage is Some),
        ("Matrix"@, c.matrix is Some),
        ("Signal"@, c.signal is Some),
        ("WhatsApp"@, c.whatsapp is Some),
        ("Linq"@, c.linq is Some),
        ("IRC"@, c.irc is Some),
        ("Nextcloud Talk"@, c.nextcloud_talk is Some),
        ("DingTalk"@, c.dingtalk is Some),
        ("QQ"@, c.qq is Some),
        ("Lark"@, c.lark is Some),
        ("Feishu"@, c.feishu is Some),
        ("Nostr"@, c.nostr is Some),
    ]
}

fn channel_state(c: &ChannelsConfig, i: usize) -> (r: (&'static str, bool))
    requires
        i < 16,
    ensures
        r.0@ == channel_states(*c)[i as int].0,
        r.1 == channel_states(*c)[i as int].1,
{
    match i {
        0 => ("Telegram", c.telegram.is_some()),
        1 => ("Discord", c.discord.is_some()),
        2 => ("Slack", c.slack.is_some()),
        3 => ("Webhook", c.webhook.is_some()),
        4 => ("iMessage", c.imessage.is_some()),
        5 => ("Matrix", c.matrix.is_some()),
        6 => ("Signal", c.signal.is_some()),
        7 => ("WhatsApp", c.whatsapp.is_some()),
        8 => ("Linq", c.linq.is_some()),
        9 => ("IRC", c.irc.is_some()),
        10 => ("Nextcloud Talk", c.nextcloud_talk.is_some()),
        11 => ("DingTalk", c.dingtalk.is_some()),
        12 => ("QQ", c.qq.is_some()),
        13 => ("Lark", c.lark.is_some()),
        14 => ("Feishu", c.feishu.is_some()),
        _ => ("Nostr", c.nostr.is_some()),
    }
}

pub open spec fn channel_line(s: (Seq<char>, bool)) -> Seq<char> {
    s.0 + ": "@ + if s.1 {
        "configured"@
    } else {
        "not configured"@
    }
}

/// The channel view: the CLI, then each channel and whether it is configured.
pub fn channel_lines(config: &ConfigDocument) -> (r: Vec<String>)
    ensures
        r.deep_view() == seq!["Channels"@, ""@, "CLI: configured"@] + channel_states(
            config.channels_config,
        ).map_values(|s: (Seq<char>, bool)| channel_line(s)),
{
    let ghost expected = channel_states(config.channels_config).map_values(
        |s: (Seq<char>, bool)| channel_line(s),
    );
    let mut r = vec![
        String::from_str("Channels"),
        String::from_str(""),
        String::from_str("CLI: configured"),
    ];
    let ghost header = r.deep_view();
    let mut i: usize = 0;
    while i < 16
        invariant
            expected == channel_states(config.channels_config).map_values(
                |s: (Seq<char>, bool)| channel_line(s),
            ),
            expected.len() == 16,
            i <= 16,
            r.deep_view() == header + expected.subrange(0, i as int),
        decreases 16 - i,
    {
        let (name, configured) = channel_state(&config.channels_config, i);
        let status = if configured {
            "configured"
        } else {
            "not configured"
        };
        let line = String::from_str(name).concat(": ").concat(status);
        proof {
            assert(expected[i as int] == channel_line(channel_states(config.channels_config)[i as int]));
            assert(line@ == expected[i as int]);
        }
        let ghost before = r.deep_view();
        r.push(line);
        proof {
            assert(r.deep_view() =~= before.push(expected[i as int]));
            assert(r.deep_view() =~= header + expected.subrange(0, i + 1));
        }
        i = i + 1;
    }
    proof {
        assert(expected.subrange(0, expected.len() as int) =~= expected);
    }
    r
}

/// The number of channels that are configured.
pub open spec fn configured_count(c: ChannelsConfig) -> nat {
    channel_states(c).filter(|s: (Seq<char>, bool)| s.1).len()
}

fn count_configured(c: &ChannelsConfig) -> (r: u64)
    ensures
        r as nat == configured_count(*c),
{
    let ghost all = channel_states(*c);
    let ghost pick = |s: (Seq<char>, bool)| s.1;
    let mut n: u64 = 0;
    let mut i: usize = 0;
    proof {
        assert(all.subrange(0, 0).filter(pick) =~= Seq::<(Seq<char>, bool)>::empty());
    }
    while i < 16
        invariant
            all == channel_states(*c),
            all.len() == 16,
            pick == (|s: (Seq<char>, bool)| s.1),
            i <= 16,
            n as nat == all.subrange(0, i as int).filter(pick).len(),
            n <= i,
        decreases 16 - i,
    {
        proof {
            assert(all.subrange(0, i + 1) =~= all.subrange(0, i as int).push(all[i as int]));
            all.subrange(0, i as int).lemma_filter_push(all[i as int], pick);
        }
        let (_, configured) = channel_state(c, i);
        if configured {
            n = n + 1;
        }
        i = i + 1;
    }
    proof {
        assert(all.subrange(0, all.len() as int) =~= all);
    }
    n
}

/// The read-only checks: whether the files exist, whether a key is set, how many channels are
/// configured, and the OTP and emergency-stop switches.
pub fn doctor_lines(
    config: &ConfigDocument,
    config_exists: bool,
    workspace_exists: bool,
    otp_enabled: bool,
    estop_enabled: bool,
) -> (r: Vec<String>)
    ensures
        r.deep_view() == seq![
            "Doctor (readonly quick checks)"@,
            ""@,
            "Config file exists: "@ + yes_no(config_exists),
            "Workspace exists: "@ + yes_no(workspace_exists),
            "API key configured: "@ + yes_no(config.api_key is Some),
            "Configured channels: "@ + decimal(configured_count(config.channels_config)),
            "OTP enabled: "@ + if otp_enabled {
                "true"@
            } else {
                "false"@
            },
            "E-stop enabled: "@ + if estop_enabled {
                "true"@
            } else {
                "false"@
            },
        ],
{
    let count = count_configured(&config.channels_config);
    let r = vec![
        String::from_str("Doctor (readonly quick checks)"),
        String::from_str(""),
        labelled("Config file exists: ", yes_no_text(config_exists)),
        labelled("Workspace exists: ", yes_no_text(workspace_exists)),
        labelled("API key configured: ", yes_no_text(config.api_key.is_some())),
        labelled("Configured channels: ", decimal_text(count).as_str()),
        labelled(
            "OTP enabled: ",
            if otp_enabled {
                "true"
            } else {
                "false"
            },
        ),
        labelled(
            "E-stop enabled: ",
            if estop_enabled {
                "true"
            } else {
                "false"
            },
        ),
    ];
    proof {
        assert(r.deep_view() =~= seq![
            "Doctor (readonly quick checks)"@,
            ""@,
            "Config file exists: "@ + yes_no(config_exists),
            "Workspace exists: "@ + yes_no(workspace_exists),
            "API key configured: "@ + yes_no(config.api_key is Some),
            "Configured channels: "@ + decimal(configured_count(config.channels_config)),
            "OTP enabled: "@ + if otp_enabled {
                "true"@
            } else {
                "false"@
            },
            "E-stop enabled: "@ + if estop_enabled {
                "true"@
            } else {
                "false"@
            },
        ]);
    }
    r
}

/// The report of a command that runs elsewhere: its title, then the lines for success, or the
/// failure with its message.
pub open spec fn run_report(
    title: Seq<char>,
    done: Seq<Seq<char>>,
    failed: Seq<char>,
    result: Result<(), String>,
) -> Seq<Seq<char>> {
    match result {
        Ok(_) => seq![title, ""@] + done,
        Err(e) => seq![title, ""@, failed + e@],
    }
}

/// The report of a command run elsewhere: the title, a blank line, then two lines on success
/// or the failure message.
pub fn run_report_lines(title: &str, done_a: &str, done_b: &str, failed: &str, result: &Result<(), String>) -> (r:
    Vec<String>)
    ensures
        r.deep_view() == run_report(title@, seq![done_a@, done_b@], failed@, *result),
{
    let r = match result {
        Ok(_) => vec![
            String::from_str(title),
            String::from_str(""),
            String::from_str(done_a),
            String::from_str(done_b),
        ],
        Err(e) => vec![
            String::from_str(title),
            String::from_str(""),
            String::from_str(failed).concat(e.as_str()),
        ],
    };
    proof {
        assert(r.deep_view() =~= run_report(title@, seq![done_a@, done_b@], failed@, *result));
    }
    r
}

/// The report of a full diagnostics run.
pub fn doctor_full_lines(result: &Result<(), String>) -> (r: Vec<String>)
    ensures
        r.deep_view() == run_report(
            "Doctor (run)"@,
            seq!["Doctor run completed."@, "Detailed diagnostics were emitted to terminal output."@],
            "Doctor run failed: "@,
            *result,
        ),
{
    run_report_lines(
        "Doctor (run)",
        "Doctor run completed.",
        "Detailed diagnostics were emitted to terminal output.",
        "Doctor run failed: ",
        result,
    )
}

/// The report of a hardware discovery run.
pub fn hardware_discover_lines(result: &Result<(), String>) -> (r: Vec<String>)
    ensures
        r.deep_view() == run_report(
            "Hardware Discover (run)"@,
            seq![
                "Hardware discovery completed."@,
                "Detailed hardware output was emitted to terminal output."@,
            ],
            "Hardware discovery failed: "@,
            *result,
        ),
{
    run_report_lines(
        "Hardware Discover (run)",
        "Hardware discovery completed.",
        "Detailed hardware output was emitted to terminal output.",
        "Hardware discovery failed: ",
        result,
    )
}

/// `items` joined with `sep` between neighbours.
pub open spec fn joined(items: Seq<Seq<char>>, sep: Seq<char>) -> Seq<char>
    decreases items.len(),
{
    if items.len() == 0 {
        Seq::empty()
    } else if items.len() == 1 {
        items[0]
    } else {
        joined(items.drop_last(), sep) + sep + items.last()
    }
}

/// A list as the dashboard prints it: comma-separated, or `(none)`.
pub open spec fn list_or_none(items: Seq<Seq<char>>) -> Seq<char> {
    if items.len() == 0 {
        "(none)"@
    } else {
        joined(items, ", "@)
    }
}

fn list_text(items: &Vec<String>) -> (r: String)
    ensures
        r@ == list_or_none(items.deep_view()),
{
    if items.len() == 0 {
        return String::from_str("(none)");
    }
    let ghost all = items.deep_view();
    let mut out = items[0].clone();
    let mut i: usize = 1;
    proof {
        assert(all.subrange(0, 1) =~= seq![all[0]]);
    }
    while i < items.len()
        invariant
            all == items.deep_view(),
            1 <= i <= all.len(),
            out@ == joined(all.subrange(0, i as int), ", "@),
        decreases all.len() - i,
    {
        out = out.concat(", ").concat(items[i].as_str());
        proof {
            let p = all.subrange(0, i + 1);
            assert(p.drop_last() =~= all.subrange(0, i as int));
            assert(p.last() == all[i as int]);
        }
        i = i + 1;
    }
    proof {
        assert(all.subrange(0, all.len() as int) =~= all);
    }
    out
}

/// The emergency-stop state as the security subsystem reports it.
pub struct EstopState {
    pub engaged: bool,
    pub kill_all: bool,
    pub network_kill: bool,
    pub blocked_domains: Vec<String>,
    pub frozen_tools: Vec<String>,
    pub updated_at: Option<String>,
}

pub open spec fn active_or_not(b: bool) -> Seq<char> {
    if b {
        "active"@
    } else {
        "inactive"@
    }
}

/// The lines describing an emergency-stop state.
pub open spec fn estop_state_lines(s: EstopState) -> Seq<Seq<char>> {
    let lines = seq![
        "Estop Status"@,
        ""@,
        "engaged: "@ + yes_no(s.engaged),
        "kill_all: "@ + active_or_not(s.kill_all),
        "network_kill: "@ + active_or_not(s.network_kill),
        "domain_blocks: "@ + list_or_none(s.blocked_domains.deep_view()),
        "tool_freeze: "@ + list_or_none(s.frozen_tools.deep_view()),
    ];
    match s.updated_at {
        Some(t) => lines.push("updated_at: "@ + t@),
        None => lines,
    }
}

/// The emergency-stop view: disabled, the state, or why it could not be read.
pub fn estop_status_lines(enabled: bool, status: &Result<EstopState, String>) -> (r: Vec<String>)
    ensures
        r.deep_view() == if !enabled {
            seq!["Estop Status"@, ""@, "Emergency stop is disabled in config."@]
        } else {
            match status {
                Ok(s) => estop_state_lines(*s),
                Err(e) => seq!["Estop Status"@, ""@, "Failed to load estop status: "@ + e@],
            }
        },
{
    if !enabled {
        let r = vec![
            String::from_str("Estop Status"),
            String::from_str(""),
            String::from_str("Emergency stop is disabled in config."),
        ];
        proof {
            assert(r.deep_view() =~= seq![
                "Estop Status"@,
                ""@,
                "Emergency stop is disabled in config."@,
            ]);
        }
        return r;
    }
    match status {
        Ok(state) => {
            let active_text = |b: bool| -> (t: &'static str)
                ensures
                    t@ == active_or_not(b),
                {
                    if b {
                        "active"
                    } else {
                        "inactive"
                    }
                };
            let mut r = vec![
                String::from_str("Estop Status"),
                String::from_str(""),
                labelled("engaged: ", yes_no_text(state.engaged)),
                labelled("kill_all: ", active_text(state.kill_all)),
                labelled("network_kill: ", active_text(state.network_kill)),
                labelled("domain_blocks: ", list_text(&state.blocked_domains).as_str()),
                labelled("tool_freeze: ", list_text(&state.frozen_tools).as_str()),
            ];
            let ghost base = r.deep_view();
            proof {
                assert(base =~= seq![
                    "Estop Status"@,
                    ""@,
                    "engaged: "@ + yes_no(state.engaged),
                    "kill_all: "@ + active_or_not(state.kill_all),
                    "network_kill: "@ + active_or_not(state.network_kill),
                    "domain_blocks: "@ + list_or_none(state.blocked_domains.deep_view()),
                    "tool_freeze: "@ + list_or_none(state.frozen_tools.deep_view()),
                ]);
            }
            if let Some(updated_at) = &state.updated_at {
                r.push(labelled("updated_at: ", updated_at.as_str()));
                proof {
                    assert(r.deep_view() =~= base.push("updated_at: "@ + updated_at@));
                }
            }
            r
        },
        Err(error) => {
            let r = vec![
                String::from_str("Estop Status"),
                String::from_str(""),
                labelled("Failed to load estop status: ", error.as_str()),
            ];
            proof {
                assert(r.deep_view() =~= seq![
                    "Estop Status"@,
                    ""@,
                    "Failed to load estop status: "@ + error@,
                ]);
            }
            r
        },
    }
}

/// An authentication profile, with whether it is the active one for its provider.
pub struct AuthProfile {
    pub id: String,
    pub provider: String,
    pub active: bool,
}

/// The stored profiles: pairs of profile id and provider, and pairs of provider and the id
/// of its active profile.
pub struct AuthProfileData {
    pub profiles: Vec<(String, String)>,
    pub active_profiles: Vec<(String, String)>,
}

/// The id of the active profile of `provider`: the first entry for it in `active`.
pub open spec fn active_profile_of(active: Seq<(Seq<char>, Seq<char>)>, provider: Seq<char>) -> Option<
    Seq<char>,
>
    decreases active.len(),
{
    if active.len() == 0 {
        None
    } else if active[0].0 == provider {
        Some(active[0].1)
    } else {
        active_profile_of(active.drop_first(), provider)
    }
}

fn active_profile_for(active: &Vec<(String, String)>, provider: &str) -> (r: Option<String>)
    ensures
        match r {
            Some(id) => active_profile_of(active.deep_view(), provider@) == Some(id@),
            None => active_profile_of(active.deep_view(), provider@) is None,
        },
{
    let ghost all = active.deep_view();
    let mut i: usize = 0;
    proof {
        assert(all.subrange(0, all.len() as int) =~= all);
    }
    while i < active.len()
        invariant
            all == active.deep_view(),
            i <= all.len(),
            active_profile_of(all, provider@) == active_profile_of(
                all.subrange(i as int, all.len() as int),
                provider@,
            ),
        decreases all.len() - i,
    {
        let ghost rest = all.subrange(i as int, all.len() as int);
        proof {
            assert(rest[0] == all[i as int]);
            assert(rest.drop_first() =~= all.subrange(i + 1, all.len() as int));
        }
        if crate::text::same_text(active[i].0.as_str(), provider) {
            return Some(active[i].1.clone());
        }
        i = i + 1;
    }
    proof {
        assert(all.subrange(i as int, all.len() as int) =~= Seq::<(Seq<char>, Seq<char>)>::empty());
    }
    None
}

/// Each stored profile with its provider, marked active where it is the active profile of
/// its provider.
pub fn mark_active_profiles(data: &AuthProfileData) -> (r: Vec<AuthProfile>)
    ensures
        r@.len() == data.profiles@.len(),
        forall|i: int|
            0 <= i < r@.len() ==> {
                &&& (#[trigger] r@[i]).id@ == data.profiles@[i].0@
                &&& r@[i].provider@ == data.profiles@[i].1@
                &&& r@[i].active == (active_profile_of(
                    data.active_profiles.deep_view(),
                    data.profiles@[i].1@,
                ) == Some(data.profiles@[i].0@))
            },
{
    let mut out: Vec<AuthProfile> = Vec::new();
    let mut i: usize = 0;
    while i < data.profiles.len()
        invariant
            i <= data.profiles@.len(),
            out@.len() == i,
            forall|k: int|
                0 <= k < i ==> {
                    &&& (#[trigger] out@[k]).id@ == data.profiles@[k].0@
                    &&& out@[k].provider@ == data.profiles@[k].1@
                    &&& out@[k].active == (active_profile_of(
                        data.active_profiles.deep_view(),
                        data.profiles@[k].1@,
                    ) == Some(data.profiles@[k].0@))
                },
        decreases data.profiles@.len() - i,
    {
        let id = &data.profiles[i].0;
        let provider = &data.profiles[i].1;
        let active = match active_profile_for(&data.active_profiles, provider.as_str()) {
            Some(a) => crate::text::same_text(a.as_str(), id.as_str()),
            None => false,
        };
        out.push(AuthProfile { id: id.clone(), provider: provider.clone(), active });
        i = i + 1;
    }
    out
}

pub open spec fn profile_line(p: AuthProfile) -> Seq<char> {
    "- "@ + p.id@ + " ("@ + p.provider@ + ")"@ + if p.active {
        " [active]"@
    } else {
        ""@
    }
}

/// The authentication view: how many profiles there are, then one line for each, or why
/// they could not be read.
pub fn auth_profile_lines(profiles: &Result<Vec<AuthProfile>, String>) -> (r: Vec<String>)
    ensures
        r.deep_view() == match profiles {
            Err(e) => seq!["Auth Profiles"@, ""@, "Failed to load auth profiles: "@ + e@],
            Ok(ps) => {
                let header = seq![
                    "Auth Profiles"@,
                    ""@,
                    "Total profiles: "@ + decimal(ps@.len()),
                ];
                if ps@.len() == 0 {
                    header.push("No auth profiles configured."@)
                } else {
                    header + ps@.map_values(|p: AuthProfile| profile_line(p))
                }
            },
        },
{
    match profiles {
        Err(error) => {
            let r = vec![
                String::from_str("Auth Profiles"),
                String::from_str(""),
                labelled("Failed to load auth profiles: ", error.as_str()),
            ];
            proof {
                assert(r.deep_view() =~= seq![
                    "Auth Profiles"@,
                    ""@,
                    "Failed to load auth profiles: "@ + error@,
                ]);
            }
            r
        },
        Ok(ps) => {
            let mut r = vec![
                String::from_str("Auth Profiles"),
                String::from_str(""),
                labelled("Total profiles: ", decimal_text(ps.len() as u64).as_str()),
            ];
            let ghost header = r.deep_view();
            let ghost expected = ps@.map_values(|p: AuthProfile| profile_line(p));
            if ps.len() == 0 {
                r.push(String::from_str("No auth profiles configured."));
                proof {
                    assert(r.deep_view() =~= header.push("No auth profiles configured."@));
                }
                return r;
            }
            let mut i: usize = 0;
            while i < ps.len()
                invariant
                    expected == ps@.map_values(|p: AuthProfile| profile_line(p)),
                    i <= ps@.len(),
                    r.deep_view() == header + expected.subrange(0, i as int),
                decreases ps@.len() - i,
            {
                let p = &ps[i];
                let marker = if p.active {
                    " [active]"
                } else {
                    ""
                };
                let line = String::from_str("- ").concat(p.id.as_str()).concat(" (").concat(
                    p.provider.as_str(),
                ).concat(")").concat(marker);
                proof {
                    assert(line@ == expected[i as int]);
                }
                let ghost before = r.deep_view();
                r.push(line);
                proof {
                    assert(r.deep_view() =~= before.push(expected[i as int]));
                    assert(r.deep_view() =~= header + expected.subrange(0, i + 1));
                }
                i = i + 1;
            }
            proof {
                assert(expected.subrange(0, expected.len() as int) =~= expected);
            }
            r
        },
    }
}

/// A provider known to the runtime.
pub struct ProviderInfo {
    pub name: String,
    pub display_name: String,
    pub aliases: Vec<String>,
    pub local: bool,
}

/// The code point of `c` with ASCII capitals folded to small letters.
pub open spec fn ascii_folded(c: char) -> int {
    if 65 <= (c as int) <= 90 {
        (c as int) + 32
    } else {
        c as int
    }
}

/// Equality that ignores the case of ASCII letters, as `eq_ignore_ascii_case` compares.
pub open spec fn same_ignoring_ascii_case(a: Seq<char>, b: Seq<char>) -> bool {
    a.len() == b.len() && forall|i: int| 0 <= i < a.len() ==> ascii_folded(#[trigger] a[i]) == ascii_folded(b[i])
}

fn eq_ignore_ascii_case(a: &str, b: &str) -> (r: bool)
    ensures
        r == same_ignoring_ascii_case(a@, b@),
{
    let n = a.unicode_len();
    if n != b.unicode_len() {
        return false;
    }
    let mut i: usize = 0;
    while i < n
        invariant
            n == a@.len(),
            n == b@.len(),
            i <= n,
            forall|k: int| 0 <= k < i ==> ascii_folded(#[trigger] a@[k]) == ascii_folded(b@[k]),
        decreases n - i,
    {
        let x = a.get_char(i) as u32;
        let y = b.get_char(i) as u32;
        let fx = if 65 <= x && x <= 90 {
            x + 32
        } else {
            x
        };
        let fy = if 65 <= y && y <= 90 {
            y + 32
        } else {
            y
        };
        if fx != fy {
            return false;
        }
        i = i + 1;
    }
    true
}

/// Whether `p` is the provider the document names, by its name or one of its aliases, with
/// ASCII case ignored.
pub open spec fn is_active_provider(p: ProviderInfo, active: Seq<char>) -> bool {
    same_ignoring_ascii_case(p.name@, active) || exists|i: int|
        0 <= i < p.aliases@.len() && same_ignoring_ascii_case(#[trigger] p.aliases@[i]@, active)
}

pub open spec fn provider_line(p: ProviderInfo, active: Seq<char>) -> Seq<char> {
    "- "@ + p.name@ + ": "@ + p.display_name@ + (if p.local {
        " [local]"@
    } else {
        ""@
    }) + if is_active_provider(p, active) {
        " [active]"@
    } else {
        ""@
    }
}

fn is_active(p: &ProviderInfo, active: &str) -> (r: bool)
    ensures
        r == is_active_provider(*p, active@),
{
    if eq_ignore_ascii_case(p.name.as_str(), active) {
        return true;
    }
    let mut i: usize = 0;
    while i < p.aliases.len()
        invariant
            i <= p.aliases@.len(),
            forall|k: int| 0 <= k < i ==> !same_ignoring_ascii_case(#[trigger] p.aliases@[k]@, active@),
        decreases p.aliases@.len() - i,
    {
        if eq_ignore_ascii_case(p.aliases[i].as_str(), active) {
            return true;
        }
        i = i + 1;
    }
    false
}

/// The provider view: how many providers there are, then one line for each, marking local
/// providers and the one the document names.
pub fn provider_lines(config: &ConfigDocument, providers: &Vec<ProviderInfo>) -> (r: Vec<String>)
    ensures
        r.deep_view() == seq![
            "Providers"@,
            ""@,
            "Total providers: "@ + decimal(providers@.len()),
        ] + providers@.map_values(|p: ProviderInfo| provider_line(p, reported_provider(*config))),
{
    let active = reported_provider_text(config);
    let mut r = vec![
        String::from_str("Providers"),
        String::from_str(""),
        labelled("Total providers: ", decimal_text(providers.len() as u64).as_str()),
    ];
    let ghost header = r.deep_view();
    let ghost expected = providers@.map_values(
        |p: ProviderInfo| provider_line(p, reported_provider(*config)),
    );
    let mut i: usize = 0;
    while i < providers.len()
        invariant
            active@ == reported_provider(*config),
            expected == providers@.map_values(
                |p: ProviderInfo| provider_line(p, reported_provider(*config)),
            ),
            i <= providers@.len(),
            r.deep_view() == header + expected.subrange(0, i as int),
        decreases providers@.len() - i,
    {
        let p = &providers[i];
        let local_tag = if p.local {
            " [local]"
        } else {
            ""
        };
        let marker = if is_active(p, active.as_str()) {
            " [active]"
        } else {
            ""
        };
        let line = String::from_str("- ").concat(p.name.as_str()).concat(": ").concat(
            p.display_name.as_str(),
        ).concat(local_tag).concat(marker);
        proof {
            assert(line@ =~= expected[i as int]);
        }
        let ghost before = r.deep_view();
        r.push(line);
        proof {
            assert(r.deep_view() =~= before.push(expected[i as int]));
            assert(r.deep_view() =~= header + expected.subrange(0, i + 1));
        }
        i = i + 1;
    }
    proof {
        assert(expected.subrange(0, expected.len() as int) =~= expected);
    }
    r
}

/// The report of a model catalog refresh for the configured provider.
pub fn models_refresh_lines(config: &ConfigDocument, result: &Result<(), String>) -> (r: Vec<
    String,
>)
    ensures
        ({
            let label = text_or_else(config.default_provider, "default"@);
            r.deep_view() == match result {
                Ok(_) => seq![
                    "Models Refresh (run)"@,
                    ""@,
                    "Model refresh completed for provider: "@ + label,
                    "Detailed refresh logs are emitted to terminal output."@,
                ],
                Err(e) => seq![
                    "Models Refresh (run)"@,
                    ""@,
                    "Model refresh failed for provider "@ + label + ": "@ + e@,
                ],
            }
        }),
{
    let label = text_or(&config.default_provider, "default");
    let r = match result {
        Ok(_) => vec![
            String::from_str("Models Refresh (run)"),
            String::from_str(""),
            labelled("Model refresh completed for provider: ", label.as_str()),
            String::from_str("Detailed refresh logs are emitted to terminal output."),
        ],
        Err(e) => vec![
            String::from_str("Models Refresh (run)"),
            String::from_str(""),
            String::from_str("Model refresh failed for provider ").concat(label.as_str()).concat(
                ": ",
            ).concat(e.as_str()),
        ],
    };
    proof {
        let l = text_or_else(config.default_provider, "default"@);
        match result {
            Ok(_) => assert(r.deep_view() =~= seq![
                "Models Refresh (run)"@,
                ""@,
                "Model refresh completed for provider: "@ + l,
                "Detailed refresh logs are emitted to terminal output."@,
            ]),
            Err(e) => assert(r.deep_view() =~= seq![
                "Models Refresh (run)"@,
                ""@,
                "Model refresh failed for provider "@ + l + ": "@ + e@,
            ]),
        }
    }
    r
}

} // verus!
