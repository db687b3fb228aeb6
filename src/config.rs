//! Gateway settings, assembled from layered sources: built-in defaults,
//! then a file, then the environment, then the command line, each later
//! layer overriding the earlier ones setting by setting.

use vstd::prelude::*;
use crate::broker::copy_tags;

verus! {

pub struct ServerConfig {
    pub bind_address: String,
    pub log_level: String,
}

pub struct GoogleConfig {
    pub client_id: String,
}

pub struct TailscaleConfig {
    pub oauth_secret_path: String,
    pub api_url: String,
    pub auth_key_tags: Vec<String>,
}

pub struct DatabaseConfig {
    pub path: String,
}

/// The complete settings of the gateway.
pub struct SsoConfig {
    pub server: ServerConfig,
    pub google: GoogleConfig,
    pub tailscale: TailscaleConfig,
    pub database: DatabaseConfig,
}

/// The command-line arguments.
pub struct CliArgs {
    pub config: String,
    pub bind_address: Option<String>,
    pub google_client_id: Option<String>,
    pub tailscale_oauth_secret_path: Option<String>,
    pub tailscale_api_url: Option<String>,
    pub tailscale_auth_key_tags: Vec<String>,
    pub database_path: Option<String>,
    pub log_level: Option<String>,
}

/// The settings one source provides; an absent one is left to lower layers.
pub struct ConfigLayer {
    pub bind_address: Option<String>,
    pub log_level: Option<String>,
    pub client_id: Option<String>,
    pub oauth_secret_path: Option<String>,
    pub api_url: Option<String>,
    pub auth_key_tags: Option<Vec<String>>,
    pub database_path: Option<String>,
}

/// A layer as values.
pub struct LayerView {
    pub bind_address: Option<Seq<char>>,
    pub log_level: Option<Seq<char>>,
    pub client_id: Option<Seq<char>>,
    pub oauth_secret_path: Option<Seq<char>>,
    pub api_url: Option<Seq<char>>,
    pub auth_key_tags: Option<Seq<Seq<char>>>,
    pub database_path: Option<Seq<char>>,
}

pub open spec fn text_view(o: Option<String>) -> Option<Seq<char>> {
    match o {
        Some(s) => Some(s@),
        None => None,
    }
}

pub open spec fn texts_view(v: Seq<String>) -> Seq<Seq<char>> {
    v.map_values(|s: String| s@)
}

pub open spec fn tags_view(o: Option<Vec<String>>) -> Option<Seq<Seq<char>>> {
    match o {
        Some(v) => Some(texts_view(v@)),
        None => None,
    }
}

impl View for ConfigLayer {
    type V = LayerView;

    open spec fn view(&self) -> LayerView {
        LayerView {
            bind_address: text_view(self.bind_address),
            log_level: text_view(self.log_level),
            client_id: text_view(self.client_id),
            oauth_secret_path: text_view(self.oauth_secret_path),
            api_url: text_view(self.api_url),
            auth_key_tags: tags_view(self.auth_key_tags),
            database_path: text_view(self.database_path),
        }
    }
}

/// The value of the upper layer where it has one, else the lower one's.
pub open spec fn pick<T>(lower: Option<T>, upper: Option<T>) -> Option<T> {
    match upper {
        Some(v) => Some(v),
        None => lower,
    }
}

/// `upper` laid over `lower`, setting by setting.
pub open spec fn overlay(lower: LayerView, upper: LayerView) -> LayerView {
    LayerView {
        bind_address: pick(lower.bind_address, upper.bind_address),
        log_level: pick(lower.log_level, upper.log_level),
        client_id: pick(lower.client_id, upper.client_id),
        oauth_secret_path: pick(lower.oauth_secret_path, upper.oauth_secret_path),
        api_url: pick(lower.api_url, upper.api_url),
        auth_key_tags: pick(lower.auth_key_tags, upper.auth_key_tags),
        database_path: pick(lower.database_path, upper.database_path),
    }
}

pub open spec fn empty_layer() -> LayerView {
    LayerView {
        bind_address: None,
        log_level: None,
        client_id: None,
        oauth_secret_path: None,
        api_url: None,
        auth_key_tags: None,
        database_path: None,
    }
}

/// All layers laid over one another in order, the last on top.
pub open spec fn resolved(layers: Seq<LayerView>) -> LayerView
    decreases layers.len(),
{
    if layers.len() == 0 {
        empty_layer()
    } else {
        overlay(resolved(layers.drop_last()), layers.last())
    }
}

fn copy_text(o: &Option<String>) -> (r: Option<String>)
    ensures
        text_view(r) == text_view(*o),
{
    match o {
        Some(s) => Some(s.clone()),
        None => None,
    }
}

fn copy_tag_list(o: &Option<Vec<String>>) -> (r: Option<Vec<String>>)
    ensures
        tags_view(r) == tags_view(*o),
{
    match o {
        Some(v) => {
            let c = copy_tags(v);
            assert(texts_view(c@) =~= texts_view(v@));
            Some(c)
        },
        None => None,
    }
}

fn pick_text(lower: &Option<String>, upper: &Option<String>) -> (r: Option<String>)
    ensures
        text_view(r) == pick(text_view(*lower), text_view(*upper)),
{
    match upper {
        Some(_) => copy_text(upper),
        None => copy_text(lower),
    }
}

/// Lays `upper` over `lower`.
pub fn overlay_layers(lower: &ConfigLayer, upper: &ConfigLayer) -> (r: ConfigLayer)
    ensures
        r@ == overlay(lower@, upper@),
{
    ConfigLayer {
        bind_address: pick_text(&lower.bind_address, &upper.bind_address),
        log_level: pick_text(&lower.log_level, &upper.log_level),
        client_id: pick_text(&lower.client_id, &upper.client_id),
        oauth_secret_path: pick_text(&lower.oauth_secret_path, &upper.oauth_secret_path),
        api_url: pick_text(&lower.api_url, &upper.api_url),
        auth_key_tags: match &upper.auth_key_tags {
            Some(_) => copy_tag_list(&upper.auth_key_tags),
            None => copy_tag_list(&lower.auth_key_tags),
        },
        database_path: pick_text(&lower.database_path, &upper.database_path),
    }
}

impl ConfigLayer {
    /// A layer that sets nothing.
    pub fn empty() -> (r: ConfigLayer)
        ensures
            r@ == empty_layer(),
    {
        ConfigLayer {
            bind_address: None,
            log_level: None,
            client_id: None,
            oauth_secret_path: None,
            api_url: None,
            auth_key_tags: None,
            database_path: None,
        }
    }
}

/// A required setting.
#[derive(PartialEq, Eq, Structural, Clone, Copy, Debug)]
pub enum Setting {
    BindAddress,
    LogLevel,
    ClientId,
    OauthSecretPath,
    ApiUrl,
    DatabasePath,
}

impl Setting {
    /// The dotted key naming the setting in every source.
    pub fn key(&self) -> (r: String)
        ensures
            r@ == setting_key(*self),
    {
        match self {
            Setting::BindAddress => String::from_str("server.bind_address"),
            Setting::LogLevel => String::from_str("server.log_level"),
            Setting::ClientId => String::from_str("google.client_id"),
            Setting::OauthSecretPath => String::from_str("tailscale.oauth_secret_path"),
            Setting::ApiUrl => String::from_str("tailscale.api_url"),
            Setting::DatabasePath => String::from_str("database.path"),
        }
    }
}

pub open spec fn setting_key(s: Setting) -> Seq<char> {
    match s {
        Setting::BindAddress => "server.bind_address"@,
        Setting::LogLevel => "server.log_level"@,
        Setting::ClientId => "google.client_id"@,
        Setting::OauthSecretPath => "tailscale.oauth_secret_path"@,
        Setting::ApiUrl => "tailscale.api_url"@,
        Setting::DatabasePath => "database.path"@,
    }
}

/// Why settings could not be assembled.
#[derive(PartialEq, Eq, Structural, Clone, Copy, Debug)]
pub enum ConfigError {
    /// No layer provides this required setting.
    Missing(Setting),
}

/// The first required setting, in the order of the settings' sections, that
/// no layer provides.
pub open spec fn first_missing(v: LayerView) -> Option<Setting> {
    if v.bind_address is None {
        Some(Setting::BindAddress)
    } else if v.log_level is None {
        Some(Setting::LogLevel)
    } else if v.client_id is None {
        Some(Setting::ClientId)
    } else if v.oauth_secret_path is None {
        Some(Setting::OauthSecretPath)
    } else if v.api_url is None {
        Some(Setting::ApiUrl)
    } else if v.database_path is None {
        Some(Setting::DatabasePath)
    } else {
        None
    }
}

/// The settings `c` holds exactly the values of the resolved layer `v`;
/// tags default to none.
pub open spec fn config_matches(c: SsoConfig, v: LayerView) -> bool {
    &&& c.server.bind_address@ == v.bind_address->0
    &&& c.server.log_level@ == v.log_level->0
    &&& c.google.client_id@ == v.client_id->0
    &&& c.tailscale.oauth_secret_path@ == v.oauth_secret_path->0
    &&& c.tailscale.api_url@ == v.api_url->0
    &&& texts_view(c.tailscale.auth_key_tags@) == match v.auth_key_tags {
        Some(t) => t,
        None => Seq::<Seq<char>>::empty(),
    }
    &&& c.database.path@ == v.database_path->0
}

pub open spec fn build_ok(r: Result<SsoConfig, ConfigError>, v: LayerView) -> bool {
    match first_missing(v) {
        Some(s) => r == Err::<SsoConfig, ConfigError>(ConfigError::Missing(s)),
        None => r matches Ok(c) && config_matches(c, v),
    }
}

fn take_text(o: Option<String>) -> (r: String)
    requires
        o is Some,
    ensures
        r@ == o->0@,
{
    match o {
        Some(s) => s,
        None => String::new(),
    }
}

/// The sources gathered so far, lowest first.
pub struct ConfigBuilder {
    pub layers: Vec<ConfigLayer>,
}

impl ConfigBuilder {
    pub open spec fn layer_views(&self) -> Seq<LayerView> {
        self.layers@.map_values(|l: ConfigLayer| l@)
    }

    /// A builder with no source yet.
    pub fn new() -> (r: ConfigBuilder)
        ensures
            r.layer_views() == Seq::<LayerView>::empty(),
    {
        let r = ConfigBuilder { layers: Vec::new() };
        assert(r.layer_views() =~= Seq::<LayerView>::empty());
        r
    }

    /// Adds a source above all earlier ones.
    pub fn add_source(self, layer: ConfigLayer) -> (r: ConfigBuilder)
        ensures
            r.layer_views() == self.layer_views().push(layer@),
    {
        let mut layers = self.layers;
        layers.push(layer);
        let r = ConfigBuilder { layers };
        assert(r.layer_views() =~= self.layer_views().push(layer@));
        r
    }

    /// Resolves the layers and assembles the settings, or names the first
    /// required setting that no layer provides.
    pub fn build(&self) -> (r: Result<SsoConfig, ConfigError>)
        ensures
            build_ok(r, resolved(self.layer_views())),
    {
        let mut acc = ConfigLayer::empty();
        let mut i: usize = 0;
        while i < self.layers.len()
            invariant
                i <= self.layers@.len(),
                acc@ == resolved(self.layer_views().subrange(0, i as int)),
            decreases self.layers@.len() - i,
        {
            let next = overlay_layers(&acc, &self.layers[i]);
            proof {
                let s = self.layer_views().subrange(0, i + 1);
                assert(s.drop_last() =~= self.layer_views().subrange(0, i as int));
            }
            acc = next;
            i = i + 1;
        }
        assert(self.layer_views().subrange(0, i as int) =~= self.layer_views());
        if acc.bind_address.is_none() {
            return Err(ConfigError::Missing(Setting::BindAddress));
        }
        if acc.log_level.is_none() {
            return Err(ConfigError::Missing(Setting::LogLevel));
        }
        if acc.client_id.is_none() {
            return Err(ConfigError::Missing(Setting::ClientId));
        }
        if acc.oauth_secret_path.is_none() {
            return Err(ConfigError::Missing(Setting::OauthSecretPath));
        }
        if acc.api_url.is_none() {
            return Err(ConfigError::Missing(Setting::ApiUrl));
        }
        if acc.database_path.is_none() {
            return Err(ConfigError::Missing(Setting::DatabasePath));
        }
        let tags = match acc.auth_key_tags {
            Some(t) => t,
            None => {
                let t: Vec<String> = Vec::new();
                assert(texts_view(t@) =~= Seq::<Seq<char>>::empty());
                t
            },
        };
        Ok(SsoConfig {
            server: ServerConfig {
                bind_address: take_text(acc.bind_address),
                log_level: take_text(acc.log_level),
            },
            google: GoogleConfig { client_id: take_text(acc.client_id) },
            tailscale: TailscaleConfig {
                oauth_secret_path: take_text(acc.oauth_secret_path),
                api_url: take_text(acc.api_url),
                auth_key_tags: tags,
            },
            database: DatabaseConfig { path: take_text(acc.database_path) },
        })
    }
}

/// The built-in defaults: only settings that suit every deployment. The
/// client id and the secret path have none.
pub open spec fn default_layer() -> LayerView {
    LayerView {
        bind_address: Some("0.0.0.0:3000"@),
        log_level: Some("info"@),
        client_id: None,
        oauth_secret_path: None,
        api_url: Some("https://api.tailscale.com/api/v2"@),
        auth_key_tags: None,
        database_path: Some("sso.db"@),
    }
}

/// The settings the command line provides; an empty tag list provides none.
pub open spec fn cli_layer(a: CliArgs) -> LayerView {
    LayerView {
        bind_address: text_view(a.bind_address),
        log_level: text_view(a.log_level),
        client_id: text_view(a.google_client_id),
        oauth_secret_path: text_view(a.tailscale_oauth_secret_path),
        api_url: text_view(a.tailscale_api_url),
        auth_key_tags: if a.tailscale_auth_key_tags@.len() == 0 {
            None
        } else {
            Some(texts_view(a.tailscale_auth_key_tags@))
        },
        database_path: text_view(a.database_path),
    }
}

/// Settings by precedence: command line over environment over file over
/// built-in defaults.
pub open spec fn layered(cli: LayerView, env: LayerView, file: LayerView) -> LayerView {
    overlay(overlay(overlay(default_layer(), file), env), cli)
}

/// Adds the built-in defaults as the lowest layer.
pub fn set_defaults(builder: ConfigBuilder) -> (r: ConfigBuilder)
    ensures
        r.layer_views() == builder.layer_views().push(default_layer()),
{
    let defaults = ConfigLayer {
        bind_address: Some(String::from_str("0.0.0.0:3000")),
        log_level: Some(String::from_str("info")),
        client_id: None,
        oauth_secret_path: None,
        api_url: Some(String::from_str("https://api.tailscale.com/api/v2")),
        auth_key_tags: None,
        database_path: Some(String::from_str("sso.db")),
    };
    builder.add_source(defaults)
}

/// Adds the settings read from the configuration file.
pub fn load_from_file(builder: ConfigBuilder, file_values: ConfigLayer) -> (r: ConfigBuilder)
    ensures
        r.layer_views() == builder.layer_views().push(file_values@),
{
    builder.add_source(file_values)
}

/// Adds the settings read from the environment.
pub fn load_from_env(builder: ConfigBuilder, env_values: ConfigLayer) -> (r: ConfigBuilder)
    ensures
        r.layer_views() == builder.layer_views().push(env_values@),
{
    builder.add_source(env_values)
}

/// The settings the command line provides, as a layer.
pub fn cli_values(cli_args: &CliArgs) -> (r: ConfigLayer)
    ensures
        r@ == cli_layer(*cli_args),
{
    let tags = if cli_args.tailscale_auth_key_tags.len() == 0 {
        None
    } else {
        let c = copy_tags(&cli_args.tailscale_auth_key_tags);
        assert(texts_view(c@) =~= texts_view(cli_args.tailscale_auth_key_tags@));
        Some(c)
    };
    ConfigLayer {
        bind_address: copy_text(&cli_args.bind_address),
        log_level: copy_text(&cli_args.log_level),
        client_id: copy_text(&cli_args.google_client_id),
        oauth_secret_path: copy_text(&cli_args.tailscale_oauth_secret_path),
        api_url: copy_text(&cli_args.tailscale_api_url),
        auth_key_tags: tags,
        database_path: copy_text(&cli_args.database_path),
    }
}

/// Adds the command line as the top layer.
pub fn load_from_cli(builder: ConfigBuilder, cli_args: &CliArgs) -> (r: ConfigBuilder)
    ensures
        r.layer_views() == builder.layer_views().push(cli_layer(*cli_args)),
{
    builder.add_source(cli_values(cli_args))
}

/// The configuration file named on the command line.
pub fn get_config_file_path(cli_args: &CliArgs) -> (r: String)
    ensures
        r@ == cli_args.config@,
{
    cli_args.config.clone()
}

/// Assembles the settings from the command line, the environment and the
/// file, over the built-in defaults.
pub fn load_config(cli_args: &CliArgs, file_values: ConfigLayer, env_values: ConfigLayer) -> (r: Result<SsoConfig, ConfigError>)
    ensures
        build_ok(r, layered(cli_layer(*cli_args), env_values@, file_values@)),
{
    let builder = ConfigBuilder::new();
    let builder = set_defaults(builder);
    let builder = load_from_file(builder, file_values);
    let builder = load_from_env(builder, env_values);
    let builder = load_from_cli(builder, cli_args);
    proof {
        let l = builder.layer_views();
        assert(l.drop_last().drop_last().drop_last().drop_last() =~= Seq::<LayerView>::empty());
        assert(l.drop_last().drop_last().drop_last() =~= seq![default_layer()]);
        assert(l.drop_last().drop_last() =~= seq![default_layer(), file_values@]);
        assert(l.drop_last() =~= seq![default_layer(), file_values@, env_values@]);
        assert(overlay(empty_layer(), default_layer()) == default_layer());
        reveal_with_fuel(resolved, 5);
        assert(resolved(l) == layered(cli_layer(*cli_args), env_values@, file_values@));
    }
    builder.build()
}

impl SsoConfig {
    /// Assembles the settings; see `load_config`.
    pub fn load(cli_args: &CliArgs, file_values: ConfigLayer, env_values: ConfigLayer) -> (r: Result<SsoConfig, ConfigError>)
        ensures
            build_ok(r, layered(cli_layer(*cli_args), env_values@, file_values@)),
    {
        load_config(cli_args, file_values, env_values)
    }

    /// The audience identity tokens must be issued for.
    pub fn audience(&self) -> (r: &str)
        ensures
            r@ == self.google.client_id@,
    {
        self.google.client_id.as_str()
    }
}

} // verus!
