//! Start-up parameters of the chat service, the defaults they fall back
//! to, and the service's error type.
use vstd::prelude::*;
use crate::args::{join_path, join_path_str, opt_view};
use crate::settings::{has_key, LlmServiceConfig, Settings};
use crate::text::{clone_opt, concat2, concat3, strs};

verus! {

/// Default address of the browser-facing HTTP listener (loopback only).
pub const DEFAULT_TCP_ADDR: &'static str = "127.0.0.1:8788";

/// Directory of the configuration file under the configuration base.
pub const CONFIG_DIR_NAME: &'static str = "llm_kb";

/// Name of the configuration file.
pub const CONFIG_FILE_NAME: &'static str = "config.toml";

/// The default configuration file: `$XDG_CONFIG_HOME/llm_kb/config.toml`,
/// else `$HOME/.config/llm_kb/config.toml`, else `./llm_kb/config.toml`.
pub open spec fn config_path_of(xdg_config_home: Option<Seq<char>>, home: Option<Seq<char>>) -> Seq<char> {
    let base = match xdg_config_home {
        Some(d) => d,
        None => match home {
            Some(h) => join_path(h, ".config"@),
            None => "."@,
        },
    };
    join_path(join_path(base, CONFIG_DIR_NAME@), CONFIG_FILE_NAME@)
}

/// The default configuration file, given `$XDG_CONFIG_HOME` and `$HOME`.
pub fn default_config_path(xdg_config_home: Option<String>, home: Option<String>) -> (r: String)
    ensures
        r@ == config_path_of(opt_view(xdg_config_home), opt_view(home)),
{
    let base = match xdg_config_home {
        Some(d) => d,
        None => match home {
            Some(h) => join_path_str(h.as_str(), ".config"),
            None => String::from_str("."),
        },
    };
    let dir = join_path_str(base.as_str(), CONFIG_DIR_NAME);
    join_path_str(dir.as_str(), CONFIG_FILE_NAME)
}

/// Everything the service is started with; each item left unset falls
/// back to its default.
#[derive(Debug, Clone)]
pub struct LaunchConfig {
    tcp_addr: Option<String>,
    config_path: Option<String>,
    runtime_dir: Option<String>,
    assets_dir: Option<String>,
}

/// What a launch configuration holds, item by item.
pub struct LaunchConfigView {
    pub tcp_addr: Option<Seq<char>>,
    pub config_path: Option<Seq<char>>,
    pub runtime_dir: Option<Seq<char>>,
    pub assets_dir: Option<Seq<char>>,
}

impl View for LaunchConfig {
    type V = LaunchConfigView;

    closed spec fn view(&self) -> LaunchConfigView {
        LaunchConfigView {
            tcp_addr: opt_view(self.tcp_addr),
            config_path: opt_view(self.config_path),
            runtime_dir: opt_view(self.runtime_dir),
            assets_dir: opt_view(self.assets_dir),
        }
    }
}

impl LaunchConfig {
    /// A configuration with every item at its default.
    pub fn new() -> (r: Self)
        ensures
            r@.tcp_addr is None,
            r@.config_path is None,
            r@.runtime_dir is None,
            r@.assets_dir is None,
    {
        LaunchConfig { tcp_addr: None, config_path: None, runtime_dir: None, assets_dir: None }
    }

    /// Sets the HTTP listening address.
    pub fn with_tcp_addr(self, addr: &str) -> (r: Self)
        ensures
            r@.tcp_addr == Some(addr@),
            r@.config_path == self@.config_path,
            r@.runtime_dir == self@.runtime_dir,
            r@.assets_dir == self@.assets_dir,
    {
        LaunchConfig { tcp_addr: Some(addr.to_owned()), ..self }
    }

    /// Sets the configuration file.
    pub fn with_config_path(self, path: &str) -> (r: Self)
        ensures
            r@.tcp_addr == self@.tcp_addr,
            r@.config_path == Some(path@),
            r@.runtime_dir == self@.runtime_dir,
            r@.assets_dir == self@.assets_dir,
    {
        LaunchConfig { config_path: Some(path.to_owned()), ..self }
    }

    /// Sets the directory of the plugin channel's socket.
    pub fn with_runtime_dir(self, dir: &str) -> (r: Self)
        ensures
            r@.tcp_addr == self@.tcp_addr,
            r@.config_path == self@.config_path,
            r@.runtime_dir == Some(dir@),
            r@.assets_dir == self@.assets_dir,
    {
        LaunchConfig { runtime_dir: Some(dir.to_owned()), ..self }
    }

    /// Sets the directory whose files override the embedded web assets.
    pub fn with_assets_dir(self, dir: &str) -> (r: Self)
        ensures
            r@.tcp_addr == self@.tcp_addr,
            r@.config_path == self@.config_path,
            r@.runtime_dir == self@.runtime_dir,
            r@.assets_dir == Some(dir@),
    {
        LaunchConfig { assets_dir: Some(dir.to_owned()), ..self }
    }

    /// The listening address set, if any.
    pub fn tcp_addr(&self) -> (r: Option<String>)
        ensures
            opt_view(r) == self@.tcp_addr,
    {
        clone_opt(&self.tcp_addr)
    }

    /// The configuration file set, if any.
    pub fn config_path(&self) -> (r: Option<String>)
        ensures
            opt_view(r) == self@.config_path,
    {
        clone_opt(&self.config_path)
    }

    /// The runtime directory set, if any.
    pub fn runtime_dir(&self) -> (r: Option<String>)
        ensures
            opt_view(r) == self@.runtime_dir,
    {
        clone_opt(&self.runtime_dir)
    }

    /// The asset override directory set, if any.
    pub fn assets_dir(&self) -> (r: Option<String>)
        ensures
            opt_view(r) == self@.assets_dir,
    {
        clone_opt(&self.assets_dir)
    }

    /// The listening address used: the one set, else [`DEFAULT_TCP_ADDR`].
    pub fn resolved_tcp_addr(&self) -> (r: String)
        ensures
            r@ == match self@.tcp_addr {
                Some(a) => a,
                None => DEFAULT_TCP_ADDR@,
            },
    {
        match &self.tcp_addr {
            Some(a) => a.clone(),
            None => String::from_str(DEFAULT_TCP_ADDR),
        }
    }

    /// The configuration file used: the one set, else the default one for
    /// the given `$XDG_CONFIG_HOME` and `$HOME`.
    pub fn resolved_config_path(&self, xdg_config_home: Option<String>, home: Option<String>) -> (r: String)
        ensures
            r@ == match self@.config_path {
                Some(p) => p,
                None => config_path_of(opt_view(xdg_config_home), opt_view(home)),
            },
    {
        match &self.config_path {
            Some(p) => p.clone(),
            None => default_config_path(xdg_config_home, home),
        }
    }
}

/// Failure of the chat service.
#[derive(Debug)]
pub enum KbSvcError {
    /// An I/O operation failed; the text is the system's report.
    Io(String),
    /// The configuration is not valid.
    Config(String),
    /// The server failed while running.
    Server(String),
}

impl KbSvcError {
    /// The error as shown to people.
    pub fn message(&self) -> (r: String)
        ensures
            r@ == match self {
                KbSvcError::Io(e) => "io error: "@ + e@,
                KbSvcError::Config(m) => "config error: "@ + m@,
                KbSvcError::Server(m) => "server error: "@ + m@,
            },
    {
        match self {
            KbSvcError::Io(e) => concat2("io error: ", e.as_str()),
            KbSvcError::Config(m) => concat2("config error: ", m.as_str()),
            KbSvcError::Server(m) => concat2("server error: ", m.as_str()),
        }
    }
}

/// The log line reporting service `id`.
pub open spec fn service_log_line(id: Seq<char>, c: LlmServiceConfig) -> Seq<char> {
    "服务 "@ + id + ": provider="@ + c.provider@ + " model="@ + c.model@ + " api_key="@ + (if has_key(c) {
        "已配置"@
    } else {
        "缺失"@
    })
}

/// What start-up logs about the configured services: a hint when there is
/// none, else one line per service in identifier order.
pub fn service_log_lines(settings: &Settings) -> (r: Vec<String>)
    ensures
        settings.services@.len() == 0 ==> strs(r@) == seq!["尚未配置任何 LLM 服务，可在网页右上角「设置」里添加"@],
        settings.services@.len() > 0 ==> r@.len() == settings.services@.len() && forall|k: int|
            0 <= k < r@.len() ==> #[trigger] r@[k]@ == service_log_line(
                settings.services@[k].0@,
                settings.services@[k].1,
            ),
{
    let mut r: Vec<String> = Vec::new();
    if settings.services.len() == 0 {
        r.push(String::from_str("尚未配置任何 LLM 服务，可在网页右上角「设置」里添加"));
        assert(strs(r@) =~= seq!["尚未配置任何 LLM 服务，可在网页右上角「设置」里添加"@]);
        return r;
    }
    let mut k: usize = 0;
    while k < settings.services.len()
        invariant
            k <= settings.services@.len(),
            r@.len() == k,
            forall|q: int| 0 <= q < k ==> #[trigger] r@[q]@ == service_log_line(
                settings.services@[q].0@,
                settings.services@[q].1,
            ),
        decreases settings.services@.len() - k,
    {
        let (id, c) = &settings.services[k];
        let head = concat3("服务 ", id.as_str(), ": provider=");
        let mid = concat3(head.as_str(), c.provider.as_str(), " model=");
        let tail = concat3(mid.as_str(), c.model.as_str(), " api_key=");
        let line = if c.has_api_key() {
            concat2(tail.as_str(), "已配置")
        } else {
            concat2(tail.as_str(), "缺失")
        };
        r.push(line);
        k = k + 1;
    }
    r
}

} // verus!
