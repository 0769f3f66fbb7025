//! Engine configuration data: plain settings records with their default
//! values, and the UI routing path with its query parameters.

use vstd::prelude::*;
use vstd::string::StrSliceExecFns;

verus! {

/// How verbose the graphics debugging is.
#[derive(Debug, Clone, Copy, PartialEq, Eq, Structural)]
pub enum GfxDebugModes {
    Off,
    Minimum,
    AffectsPerformance,
    Verbose,
    All,
}

impl Default for GfxDebugModes {
    fn default() -> (r: Self)
        ensures
            r == GfxDebugModes::Off,
    {
        GfxDebugModes::Off
    }
}

/// Why a route was rejected.
#[derive(Debug, Clone, Copy, PartialEq, Eq, Structural)]
pub enum RouteError {
    NonAsciiModName,
    NonAsciiPath,
}

impl RouteError {
    /// Human-readable description of the rejection.
    pub fn message(&self) -> (r: String)
        ensures
            self is NonAsciiModName ==> r@ == "Mod name must only contain ascii characters"@,
            self is NonAsciiPath ==> r@ == "Path name must only contain ascii characters"@,
    {
        match self {
            RouteError::NonAsciiModName => "Mod name must only contain ascii characters".to_owned(),
            RouteError::NonAsciiPath => "Path name must only contain ascii characters".to_owned(),
        }
    }
}

/// `c` is an ASCII letter.
pub open spec fn is_ascii_alpha_char(c: char) -> bool {
    (97 <= c as u32 && c as u32 <= 122) || (65 <= c as u32 && c as u32 <= 90)
}

/// Every character of `s` is an ASCII letter.
pub open spec fn all_ascii_alpha(s: Seq<char>) -> bool {
    forall|i: int| 0 <= i < s.len() ==> is_ascii_alpha_char(#[trigger] s[i])
}

fn str_is_ascii_alphabetic(s: &str) -> (r: bool)
    ensures
        r == all_ascii_alpha(s@),
{
    let n: usize = s.unicode_len();
    let mut i: usize = 0;
    while i < n
        invariant
            i <= n,
            n as nat == s@.len(),
            forall|j: int| 0 <= j < i ==> is_ascii_alpha_char(#[trigger] s@[j]),
        decreases n - i,
    {
        let c: char = s.get_char(i);
        let u: u32 = c as u32;
        if !((97 <= u && u <= 122) || (65 <= u && u <= 90)) {
            assert(!is_ascii_alpha_char(s@[i as int]));
            return false;
        }
        i += 1;
    }
    true
}

/// The key/value view of a query list: later pairs override earlier ones.
pub open spec fn query_map(q: Seq<(String, String)>) -> Map<Seq<char>, Seq<char>>
    decreases q.len(),
{
    if q.len() == 0 {
        Map::empty()
    } else {
        query_map(q.drop_last()).insert(q.last().0@, q.last().1@)
    }
}

proof fn lemma_query_map_no_tail_key(q: Seq<(String, String)>, k: Seq<char>, i: int)
    requires
        0 <= i <= q.len(),
        forall|j: int| i <= j < q.len() ==> #[trigger] q[j].0@ != k,
    ensures
        query_map(q).contains_key(k) == query_map(q.take(i)).contains_key(k),
        query_map(q).contains_key(k) ==> query_map(q)[k] == query_map(q.take(i))[k],
    decreases q.len() - i,
{
    if i == q.len() {
        assert(q.take(i) =~= q);
    } else {
        lemma_query_map_no_tail_key(q, k, i + 1);
        assert(q.take(i + 1).drop_last() =~= q.take(i));
        assert(q.take(i + 1).last() == q[i]);
    }
}

/// The UI routing path: a route name plus query parameters.
#[derive(Debug, Clone)]
pub struct ConfigPath {
    pub name: String,
    pub query: Vec<(String, String)>,
}

impl Default for ConfigPath {
    fn default() -> (r: Self)
        ensures
            r.name@ == Seq::<char>::empty(),
            r.query@ == Seq::<(String, String)>::empty(),
    {
        ConfigPath { name: String::new(), query: Vec::new() }
    }
}

impl ConfigPath {
    /// Switch to a route, dropping all query parameters.
    pub fn route(&mut self, full_path: &str)
        ensures
            final (self).name@ == full_path@,
            final (self).query@ == Seq::<(String, String)>::empty(),
    {
        self.name = full_path.to_owned();
        self.query.truncate(0);
        proof {
            assert(self.query@ =~= Seq::<(String, String)>::empty());
        }
    }

    /// Switch to a route with the given query parameters (a later pair with
    /// the same key overrides an earlier one).
    pub fn route_queried(&mut self, full_path: &str, queries: Vec<(String, String)>)
        ensures
            final (self).name@ == full_path@,
            final (self).query@ == queries@,
    {
        self.name = full_path.to_owned();
        self.query = queries;
    }

    /// Set one query parameter, overriding an earlier value of the key.
    pub fn add_query(&mut self, query: (String, String))
        ensures
            final (self).name == old(self).name,
            final (self).query@ == old(self).query@.push(query),
            query_map(final (self).query@) == query_map(old(self).query@).insert(
                query.0@,
                query.1@,
            ),
    {
        self.query.push(query);
        proof {
            assert(self.query@.drop_last() =~= old(self).query@);
        }
    }

    /// Look up a query parameter by key.
    pub fn query_get(&self, key: &String) -> (r: Option<&String>)
        ensures
            match r {
                Some(val) => query_map(self.query@).contains_key(key@) && val@ == query_map(
                    self.query@,
                )[key@],
                None => !query_map(self.query@).contains_key(key@),
            },
    {
        let mut i: usize = self.query.len();
        while i > 0
            invariant
                i <= self.query@.len(),
                forall|j: int| i <= j < self.query@.len() ==> #[trigger] self.query@[j].0@ != key@,
            decreases i,
        {
            i = i - 1;
            if self.query[i].0 == *key {
                proof {
                    lemma_query_map_no_tail_key(self.query@, key@, i + 1);
                    assert(self.query@.take(i + 1).drop_last() =~= self.query@.take(i as int));
                    assert(self.query@.take(i + 1).last() == self.query@[i as int]);
                }
                return Some(&self.query[i].1);
            }
        }
        proof {
            lemma_query_map_no_tail_key(self.query@, key@, 0);
            assert(self.query@.take(0) =~= Seq::<(String, String)>::empty());
        }
        None
    }

    /// A route is addressable when the mod name and the path consist of
    /// ASCII letters only; otherwise the offending part is reported.
    pub fn is_route_correct(mod_name: &str, path: &str) -> (r: Result<(), RouteError>)
        ensures
            r is Ok <==> (all_ascii_alpha(mod_name@) && all_ascii_alpha(path@)),
            (r == Result::<(), RouteError>::Err(RouteError::NonAsciiModName)) <==> !all_ascii_alpha(
                mod_name@,
            ),
            (r == Result::<(), RouteError>::Err(RouteError::NonAsciiPath)) <==> (all_ascii_alpha(
                mod_name@,
            ) && !all_ascii_alpha(path@)),
    {
        if !str_is_ascii_alphabetic(mod_name) {
            Err(RouteError::NonAsciiModName)
        } else if !str_is_ascii_alphabetic(path) {
            Err(RouteError::NonAsciiPath)
        } else {
            Ok(())
        }
    }
}

/// Input handling settings.
#[derive(Debug, Clone)]
pub struct ConfigInput {
    /// If `true`, the mouse is held inside the window.
    pub dbg_mode: bool,
}

impl Default for ConfigInput {
    fn default() -> (r: Self)
        ensures
            r.dbg_mode == false,
    {
        ConfigInput { dbg_mode: false }
    }
}

/// Graphics backend selection.
#[derive(Debug, Clone)]
pub struct ConfigGfx {
    pub backend: String,
}

impl Default for ConfigGfx {
    fn default() -> (r: Self)
        ensures
            r.backend@ == "Vulkan"@,
    {
        ConfigGfx { backend: "Vulkan".to_owned() }
    }
}

/// Minimal properties of a monitor.
#[derive(Debug, Clone, PartialEq)]
pub struct ConfigMonitor {
    /// Name of the current selected monitor.
    pub name: String,
    /// The physical pixel width of the monitor.
    pub width: u32,
    /// The physical pixel height of the monitor.
    pub height: u32,
}

impl Default for ConfigMonitor {
    fn default() -> (r: Self)
        ensures
            r.name@ == Seq::<char>::empty(),
            r.width == 0,
            r.height == 0,
    {
        ConfigMonitor { name: String::new(), width: 0, height: 0 }
    }
}

/// Window settings.
#[derive(Debug, Clone, PartialEq)]
pub struct ConfigWindow {
    /// The physical pixel width of the window.
    pub width: u32,
    /// The physical pixel height of the window.
    pub height: u32,
    /// Refresh rate in milli hertz.
    pub refresh_rate_mhz: u32,
    /// Whether the window is in fullscreen.
    pub fullscreen: bool,
    /// Whether the window is decorated.
    pub decorated: bool,
    /// Whether the window is maximized.
    pub maximized: bool,
    /// Minimal properties of the current selected monitor.
    pub monitor: ConfigMonitor,
}

impl Default for ConfigWindow {
    fn default() -> (r: Self)
        ensures
            r.width == 800,
            r.height == 600,
            r.refresh_rate_mhz == 60000,
            r.fullscreen == true,
            r.decorated == true,
            r.maximized == false,
            r.monitor.name@ == Seq::<char>::empty(),
            r.monitor.width == 0,
            r.monitor.height == 0,
    {
        ConfigWindow {
            width: 800,
            height: 600,
            refresh_rate_mhz: 60000,
            fullscreen: true,
            decorated: true,
            maximized: false,
            monitor: ConfigMonitor::default(),
        }
    }
}

/// Limits of the sound system.
#[derive(Debug, Clone, Copy)]
pub struct ConfigSoundLimits {
    /// How many sounds at most are played at once.
    pub max_sounds: u16,
    /// How many listeners at most listen to sounds in a scene at once.
    pub max_listeners: u16,
    /// How many scenes can at most exist at the same time.
    pub max_spatial_scenes: u16,
}

impl Default for ConfigSoundLimits {
    fn default() -> (r: Self)
        ensures
            r.max_sounds == 512,
            r.max_listeners == 64,
            r.max_spatial_scenes == 16,
    {
        ConfigSoundLimits { max_sounds: 512, max_listeners: 64, max_spatial_scenes: 16 }
    }
}

/// Sound settings.
#[derive(Debug, Clone)]
pub struct ConfigSound {
    pub backend: String,
    pub limits: ConfigSoundLimits,
}

impl Default for ConfigSound {
    fn default() -> (r: Self)
        ensures
            r.backend@ == "kira"@,
            r.limits.max_sounds == 512,
            r.limits.max_listeners == 64,
            r.limits.max_spatial_scenes == 16,
    {
        ConfigSound { backend: "kira".to_owned(), limits: ConfigSoundLimits::default() }
    }
}

/// Network settings.
#[derive(Debug, Clone)]
pub struct ConfigNetwork {
    /// Connection timeout in milliseconds.
    pub timeout_ms: u64,
    pub disable_retry_on_connect: bool,
}

impl Default for ConfigNetwork {
    fn default() -> (r: Self)
        ensures
            r.timeout_ms == 20000,
            r.disable_retry_on_connect == false,
    {
        ConfigNetwork { timeout_ms: 20000, disable_retry_on_connect: false }
    }
}

/// Debug switches.
#[derive(Debug, Clone, Copy)]
pub struct ConfigDebug {
    pub gfx: GfxDebugModes,
    /// Show various benchmarks (e.g. loading of components etc.).
    pub bench: bool,
    /// Show various app related debug elements (e.g. different ui elements).
    pub app: bool,
    pub untrusted_cert: bool,
}

impl Default for ConfigDebug {
    fn default() -> (r: Self)
        ensures
            r.gfx == GfxDebugModes::Off,
            r.bench == false,
            r.app == false,
            r.untrusted_cert == false,
    {
        ConfigDebug {
            gfx: GfxDebugModes::default(),
            bench: false,
            app: false,
            untrusted_cert: false,
        }
    }
}

} // verus!
