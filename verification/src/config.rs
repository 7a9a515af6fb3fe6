//! The process-wide configuration of the runtime.
//!
//! It is set once by the application, before anything reads it; CEF runs the
//! application's binary again for its subprocesses, and every process has to
//! arrive at the same configuration. What is read before anything was set is the
//! default, and stays.

use vstd::prelude::*;

use std::path::PathBuf;

verus! {

/// `std::path::PathBuf`, passed on without a look inside.
#[verifier::external_type_specification]
#[verifier::external_body]
pub struct ExPathBuf(std::path::PathBuf);

/// `<PathBuf as Clone>::clone`: the copy is the same path.
pub assume_specification[ <std::path::PathBuf as Clone>::clone ](path: &PathBuf) -> (r: PathBuf)
    ensures
        r == *path,
;

/// The window system on Linux, selected before CEF and the event loop start.
#[derive(Debug, Clone, Copy, Default, PartialEq, Eq, Structural)]
pub enum LinuxWindowing {
    #[default]
    X11,
    /// A top-level window that CEF Views owns, on Ozone/Wayland.
    Wayland,
}

/// The configuration of the runtime, applied when the runtime is created (in the
/// browser process) and when custom schemes are registered (in all processes).
#[derive(Debug)]
pub struct CefConfig {
    /// The application's identifier; the disk cache defaults to
    /// `{user cache dir}/{identifier}/cef`. Falls back to the executable's name.
    pub identifier: String,
    /// More Chromium command line switches, each a name and maybe a value.
    pub command_line_args: Vec<(String, Option<String>)>,
    /// Overrides the directory of the disk cache.
    pub cache_path: Option<PathBuf>,
    /// Deep link schemes to register as protocol handlers.
    pub deep_link_schemes: Vec<String>,
    /// Custom protocol schemes to register with Chromium as standard, secure,
    /// CORS- and fetch-enabled schemes. Must cover every scheme that the
    /// application or its plugins register.
    pub custom_schemes: Vec<String>,
    /// Custom schemes whose origins get a cookie jar. The defaults, http and
    /// https, are preserved.
    pub cookieable_schemes: Vec<String>,
    /// The window system on Linux. Ignored on other platforms.
    pub linux_windowing: LinuxWindowing,
}

/// The texts of a list of strings.
pub open spec fn texts(list: Seq<String>) -> Seq<Seq<char>> {
    list.map_values(|s: String| s@)
}

/// A copy of a list of strings.
pub fn copy_strings(list: &Vec<String>) -> (r: Vec<String>)
    ensures
        r@ == list@,
{
    let mut copy: Vec<String> = Vec::new();
    for i in 0..list.len()
        invariant
            copy@ == list@.take(i as int),
    {
        copy.push(list[i].clone());
        assert(list@.take(i + 1) =~= list@.take(i as int).push(list@[i as int]));
    }
    assert(list@.take(list@.len() as int) =~= list@);
    copy
}

impl Clone for CefConfig {
    /// A configuration with the same settings.
    fn clone(&self) -> (r: CefConfig)
        ensures
            r.identifier == self.identifier,
            r.command_line_args@ == self.command_line_args@,
            r.cache_path == self.cache_path,
            r.deep_link_schemes@ == self.deep_link_schemes@,
            r.custom_schemes@ == self.custom_schemes@,
            r.cookieable_schemes@ == self.cookieable_schemes@,
            r.linux_windowing == self.linux_windowing,
    {
        let mut args: Vec<(String, Option<String>)> = Vec::new();
        for i in 0..self.command_line_args.len()
            invariant
                args@ == self.command_line_args@.take(i as int),
        {
            let name = self.command_line_args[i].0.clone();
            let value = match &self.command_line_args[i].1 {
                Some(value) => Some(value.clone()),
                None => None,
            };
            args.push((name, value));
            assert(self.command_line_args@.take(i + 1) =~= self.command_line_args@.take(
                i as int,
            ).push(self.command_line_args@[i as int]));
        }
        assert(self.command_line_args@.take(self.command_line_args@.len() as int)
            =~= self.command_line_args@);
        let cache_path = match &self.cache_path {
            Some(path) => Some(path.clone()),
            None => None,
        };
        CefConfig {
            identifier: self.identifier.clone(),
            command_line_args: args,
            cache_path,
            deep_link_schemes: copy_strings(&self.deep_link_schemes),
            custom_schemes: copy_strings(&self.custom_schemes),
            cookieable_schemes: copy_strings(&self.cookieable_schemes),
            linux_windowing: self.linux_windowing,
        }
    }
}

impl CefConfig {
    /// Whether this is the default configuration of a process that runs the
    /// executable of the given name, if it is known.
    pub open spec fn is_default_of(self, executable: Option<String>) -> bool {
        &&& self.identifier@ == (match executable {
            Some(name) => name@,
            None => "tauri-app"@,
        })
        &&& self.command_line_args@.len() == 0
        &&& self.cache_path is None
        &&& self.deep_link_schemes@.len() == 0
        &&& texts(self.custom_schemes@) == seq!["tauri"@, "ipc"@, "asset"@]
        &&& self.cookieable_schemes@.len() == 0
        &&& self.linux_windowing == LinuxWindowing::X11
    }

    /// The default configuration of a process that runs the executable of the
    /// given name, if it is known.
    pub fn default(executable: Option<String>) -> (r: CefConfig)
        ensures
            r.is_default_of(executable),
            executable matches Some(name) ==> r.identifier@ == name@,
            executable is None ==> r.identifier@ == "tauri-app"@,
            r.command_line_args@.len() == 0,
            r.cache_path is None,
            r.deep_link_schemes@.len() == 0,
            r.custom_schemes@.len() == 3,
            r.custom_schemes@[0]@ == "tauri"@,
            r.custom_schemes@[1]@ == "ipc"@,
            r.custom_schemes@[2]@ == "asset"@,
            r.cookieable_schemes@.len() == 0,
            r.linux_windowing == LinuxWindowing::X11,
    {
        let identifier = match executable {
            Some(name) => name,
            None => "tauri-app".to_owned(),
        };
        let mut custom_schemes: Vec<String> = Vec::new();
        custom_schemes.push("tauri".to_owned());
        custom_schemes.push("ipc".to_owned());
        custom_schemes.push("asset".to_owned());
        assert(texts(custom_schemes@) =~= seq!["tauri"@, "ipc"@, "asset"@]);
        CefConfig {
            identifier,
            command_line_args: Vec::new(),
            cache_path: None,
            deep_link_schemes: Vec::new(),
            custom_schemes,
            cookieable_schemes: Vec::new(),
            linux_windowing: LinuxWindowing::X11,
        }
    }
}

/// The place of the process-wide configuration: empty until it is set or read.
#[derive(Debug)]
pub struct ConfigCell {
    value: Option<CefConfig>,
}

impl View for ConfigCell {
    type V = Option<CefConfig>;

    closed spec fn view(&self) -> Option<CefConfig> {
        self.value
    }
}

impl ConfigCell {
    /// A cell that nothing was put into.
    pub fn new() -> (r: ConfigCell)
        ensures
            r@ is None,
    {
        ConfigCell { value: None }
    }
}

/// What a cell holds once a configuration was offered to it: the first one stays.
pub open spec fn configured(cell: Option<CefConfig>, offered: CefConfig) -> Option<CefConfig> {
    match cell {
        Some(config) => Some(config),
        None => Some(offered),
    }
}

/// Sets the process-wide configuration. Later calls are ignored.
pub fn configure(cell: &mut ConfigCell, config: CefConfig)
    ensures
        final(cell)@ == configured(old(cell)@, config),
{
    if cell.value.is_none() {
        cell.value = Some(config);
    }
}

/// Reads the process-wide configuration. Where none was set, that of the
/// executable of the given name becomes it.
pub fn config(cell: &mut ConfigCell, executable: Option<String>) -> (r: &CefConfig)
    ensures
        final(cell)@ == Some(*r),
        old(cell)@ matches Some(config) ==> *r == config,
        old(cell)@ is None ==> r.is_default_of(executable),
{
    if cell.value.is_none() {
        cell.value = Some(CefConfig::default(executable));
    }
    match &cell.value {
        Some(config) => config,
        None => vstd::pervasive::unreached(),
    }
}

/// Whether windows are native to Wayland: the process-wide configuration, read as by
/// [`config`], says so. It is read only in a build for Linux that has native Wayland
/// windows; in any other there are none.
pub fn native_wayland(cell: &mut ConfigCell, executable: Option<String>, has_native_wayland: bool) -> (r: bool)
    ensures
        has_native_wayland ==> (final(cell)@ matches Some(config) && {
            &&& r == (config.linux_windowing == LinuxWindowing::Wayland)
            &&& old(cell)@ matches Some(before) ==> config == before
            &&& old(cell)@ is None ==> config.is_default_of(executable) && !r
        }),
        !has_native_wayland ==> !r && final(cell)@ == old(cell)@,
{
    if !has_native_wayland {
        return false;
    }
    config(cell, executable).linux_windowing == LinuxWindowing::Wayland
}

/// The first configuration wins: once one was set or read, whatever is offered
/// later changes nothing.
pub proof fn later_configurations_are_ignored(cell: Option<CefConfig>, first: CefConfig, later: CefConfig)
    ensures
        configured(cell, first) is Some,
        configured(configured(cell, first), later) == configured(cell, first),
        cell is None ==> configured(cell, first) == Some(first),
        cell is Some ==> configured(cell, later) == cell,
{
}

/// The texts of a list are those of its strings, each in its place.
pub proof fn texts_keep_their_places(list: Seq<String>)
    ensures
        texts(list).len() == list.len(),
        forall|i: int| 0 <= i < list.len() ==> #[trigger] texts(list)[i] == list[i]@,
{
}

/// A default configuration goes by the executable's name, or by a name of its own
/// where that is not known, serves the three schemes of every application, and
/// leaves everything else unset.
pub proof fn defaults_leave_the_rest_unset(config: CefConfig, executable: Option<String>)
    requires
        config.is_default_of(executable),
    ensures
        executable matches Some(name) ==> config.identifier@ == name@,
        executable is None ==> config.identifier@ == "tauri-app"@,
        config.custom_schemes@.len() == 3,
        config.custom_schemes@[0]@ == "tauri"@,
        config.custom_schemes@[1]@ == "ipc"@,
        config.custom_schemes@[2]@ == "asset"@,
        config.command_line_args@.len() == 0,
        config.deep_link_schemes@.len() == 0,
        config.cookieable_schemes@.len() == 0,
        config.cache_path is None,
        config.linux_windowing == LinuxWindowing::X11,
{
    let schemes = texts(config.custom_schemes@);
    assert(schemes.len() == 3);
    assert(schemes[0] == "tauri"@ && schemes[1] == "ipc"@ && schemes[2] == "asset"@);
}

} // verus!
