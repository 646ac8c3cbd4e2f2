//! The configuration model: which modules are enabled and where the panel
//! sits. The configuration is an explicitly owned snapshot handed to each
//! consumer at construction; loading and saving the file it comes from
//! happens outside the library.

use vstd::prelude::*;

verus! {

/// Placement and size of the panel.
#[derive(Debug, Clone)]
pub struct PanelConfig {
    pub position: String,
    pub height: u32,
}

/// Which modules are enabled; read once when a monitor is constructed.
#[derive(Debug, Clone, Copy, PartialEq, Eq, Structural)]
pub struct ModulesConfig {
    pub clock: bool,
    pub cpu: bool,
    pub memory: bool,
    pub battery: bool,
    pub network: bool,
    pub volume: bool,
    pub window_title: bool,
    pub workspaces: bool,
}

/// The whole configuration snapshot.
#[derive(Debug, Clone)]
pub struct Config {
    pub panel: PanelConfig,
    pub modules: ModulesConfig,
}

impl Config {
    /// The built-in defaults: a panel at the top edge, thirty pixels
    /// high, every module enabled.
    pub fn default() -> (r: Self)
        ensures
            r.panel.position@ == "Top"@,
            r.panel.height == 30,
            r.modules == (ModulesConfig {
                clock: true,
                cpu: true,
                memory: true,
                battery: true,
                network: true,
                volume: true,
                window_title: true,
                workspaces: true,
            }),
    {
        Config {
            panel: PanelConfig { position: "Top".to_owned(), height: 30 },
            modules: ModulesConfig {
                clock: true,
                cpu: true,
                memory: true,
                battery: true,
                network: true,
                volume: true,
                window_title: true,
                workspaces: true,
            },
        }
    }
}

/// The owned home of the configuration snapshot, set exactly once at
/// startup and read by everyone else — explicit ownership in place of
/// ambient global state.
pub struct ConfigStore {
    config: Option<Config>,
}

impl ConfigStore {
    /// The stored snapshot, if initialization has happened.
    pub closed spec fn stored(&self) -> Option<Config> {
        self.config
    }

    /// An empty store.
    pub fn new() -> (r: Self)
        ensures
            r.stored() is None,
    {
        ConfigStore { config: None }
    }
}

/// Puts the loaded configuration into the store; initializing twice is an
/// error and leaves the first snapshot in place.
pub fn init_config(store: &mut ConfigStore, config: Config) -> (r: Result<(), String>)
    ensures
        r is Ok <==> old(store).stored() is None,
        (match r {
            Ok(()) => final (store).stored() == Some(config),
            Err(m) => {
                &&& *final (store) == *old(store)
                &&& m@ == "Config already initialized"@
            },
        }),
{
    match &store.config {
        None => {
            store.config = Some(config);
            Ok(())
        },
        Some(_) => Err("Config already initialized".to_owned()),
    }
}

/// Reads the stored configuration; asking before initialization is an
/// error.
pub fn get_config(store: &ConfigStore) -> (r: Result<&Config, String>)
    ensures
        r is Ok <==> store.stored() is Some,
        (match r {
            Ok(c) => store.stored() == Some(*c),
            Err(m) => m@ == "Config not initialized"@,
        }),
{
    match &store.config {
        Some(c) => Ok(c),
        None => Err("Config not initialized".to_owned()),
    }
}

/// Borrows the stored configuration for modification; the store then
/// holds whatever the caller leaves behind the returned borrow. Asking
/// before initialization is an error.
pub fn get_config_mut(store: &mut ConfigStore) -> (r: Result<&mut Config, String>)
    ensures
        r is Ok <==> old(store).stored() is Some,
        (match r {
            Ok(c) => {
                &&& *c == old(store).stored()->0
                &&& final (store).stored() == Some(*final (c))
            },
            Err(m) => {
                &&& *final (store) == *old(store)
                &&& m@ == "Config not initialized"@
            },
        }),
{
    match &mut store.config {
        Some(c) => Ok(c),
        None => Err("Config not initialized".to_owned()),
    }
}

/// The screen edge the panel anchors to.
#[derive(Debug, Clone, Copy, PartialEq, Eq, Structural)]
pub enum ScreenEdge {
    Top,
    Bottom,
    Left,
    Right,
}

/// Case-insensitive equality of two characters, folding the ASCII
/// letters.
pub open spec fn char_eqi(a: char, b: char) -> bool {
    ||| a == b
    ||| (65 <= a as u32 <= 90 && a as u32 + 32 == b as u32)
    ||| (65 <= b as u32 <= 90 && b as u32 + 32 == a as u32)
}

/// Case-insensitive equality of two texts.
pub open spec fn seq_eqi(a: Seq<char>, b: Seq<char>) -> bool {
    a.len() == b.len() && forall|i: int| 0 <= i < a.len() ==> char_eqi(a[i], #[trigger] b[i])
}

/// Case-insensitive comparison of two character vectors.
fn chars_eqi(a: &Vec<char>, b: &Vec<char>) -> (r: bool)
    ensures
        r == seq_eqi(a@, b@),
{
    if a.len() != b.len() {
        return false;
    }
    let mut i: usize = 0;
    while i < a.len()
        invariant
            i <= a@.len(),
            a@.len() == b@.len(),
            forall|k: int| 0 <= k < i ==> char_eqi(a@[k], #[trigger] b@[k]),
        decreases a@.len() - i,
    {
        let x = a[i] as u32;
        let y = b[i] as u32;
        let eq = a[i] == b[i] || (65 <= x && x <= 90 && x + 32 == y) || (65 <= y && y <= 90 && y
            + 32 == x);
        if !eq {
            proof {
                assert(!char_eqi(a@[i as int], b@[i as int]));
            }
            return false;
        }
        proof {
            assert(char_eqi(a@[i as int], b@[i as int]));
        }
        i += 1;
    }
    true
}

/// The edge a position word names, compared without regard to letter
/// case; an unrecognized word anchors to the top.
pub open spec fn spec_string_to_edge(s: Seq<char>) -> ScreenEdge {
    if seq_eqi(s, "top"@) {
        ScreenEdge::Top
    } else if seq_eqi(s, "bottom"@) {
        ScreenEdge::Bottom
    } else if seq_eqi(s, "left"@) {
        ScreenEdge::Left
    } else if seq_eqi(s, "right"@) {
        ScreenEdge::Right
    } else {
        ScreenEdge::Top
    }
}

/// Maps the configured position word onto a screen edge.
pub fn string_to_edge(s: &str) -> (r: ScreenEdge)
    ensures
        r == spec_string_to_edge(s@),
{
    let sv = crate::text::chars_of(s);
    let top = crate::text::chars_of("top");
    let bottom = crate::text::chars_of("bottom");
    let left = crate::text::chars_of("left");
    let right = crate::text::chars_of("right");
    if chars_eqi(&sv, &top) {
        ScreenEdge::Top
    } else if chars_eqi(&sv, &bottom) {
        ScreenEdge::Bottom
    } else if chars_eqi(&sv, &left) {
        ScreenEdge::Left
    } else if chars_eqi(&sv, &right) {
        ScreenEdge::Right
    } else {
        ScreenEdge::Top
    }
}

} // verus!
