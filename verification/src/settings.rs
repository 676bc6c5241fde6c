//! The renderer's switches: which passes run and which views are shown.

use vstd::prelude::*;

use crate::named_map::NamedMap;

verus! {

/// The renderer's discrete settings. The continuous ones (light, SSAO
/// radius, exposure, field of view, resolution scale) are floating-point
/// values and are kept by the platform layer beside these.
pub struct RenderSettings {
    /// Whether each named pass is enabled.
    pub pass_states: NamedMap<bool>,
    /// The G-buffer view shown: 0 none, 1 albedo, 2 normal,
    /// 3 metal/rough, 4 depth, 5 SSAO.
    pub debug_mode: u32,
    /// The number of SSAO samples.
    pub ssao_kernel_size: u32,
    /// The settings changed since the GPU copy was last updated.
    pub changed: bool,
    /// The light is placed at the camera.
    pub light_follows_camera: bool,
}

/// Whether a pass is enabled in `states`: passes that were never set are.
pub open spec fn spec_pass_enabled(states: Map<Seq<char>, bool>, name: Seq<char>) -> bool {
    if states.contains_key(name) {
        states[name]
    } else {
        true
    }
}

impl RenderSettings {
    /// The enabled state of each pass that has one.
    pub open spec fn pass_states(&self) -> Map<Seq<char>, bool> {
        self.pass_states@
    }

    /// The names of the passes that have a state, in the order they got it.
    pub open spec fn spec_pass_names(&self) -> Seq<Seq<char>> {
        self.pass_states.spec_names()
    }

    /// The defaults: no pass state set, no debug view, 16 SSAO samples,
    /// marked changed, the light fixed.
    pub fn new() -> (settings: Self)
        ensures
            settings.pass_states() == Map::<Seq<char>, bool>::empty(),
            settings.spec_pass_names() == Seq::<Seq<char>>::empty(),
            settings.debug_mode == 0,
            settings.ssao_kernel_size == 16,
            settings.changed,
            !settings.light_follows_camera,
    {
        RenderSettings {
            pass_states: NamedMap::new(),
            debug_mode: 0,
            ssao_kernel_size: 16,
            changed: true,
            light_follows_camera: false,
        }
    }

    /// Whether the pass `name` is enabled; a pass without a state is.
    pub fn is_pass_enabled(&self, name: &str) -> (enabled: bool)
        ensures
            enabled == spec_pass_enabled(self.pass_states(), name@),
    {
        match self.pass_states.get(name) {
            Some(enabled) => *enabled,
            None => true,
        }
    }

    /// Enables or disables the pass `name`.
    pub fn set_pass_enabled(&mut self, name: &str, enabled: bool)
        ensures
            final(self).pass_states() == old(self).pass_states().insert(name@, enabled),
            old(self).pass_states().contains_key(name@) ==> final(self).spec_pass_names()
                == old(self).spec_pass_names(),
            !old(self).pass_states().contains_key(name@) ==> final(self).spec_pass_names()
                == old(self).spec_pass_names().push(name@),
            final(self).debug_mode == old(self).debug_mode,
            final(self).ssao_kernel_size == old(self).ssao_kernel_size,
            final(self).changed == old(self).changed,
            final(self).light_follows_camera == old(self).light_follows_camera,
    {
        self.pass_states.insert(name.to_owned(), enabled);
    }

    /// The names of the passes that have a state, in the order they got it.
    pub fn pass_names(&self) -> (names: Vec<String>)
        ensures
            names@.map_values(|s: String| s@) == self.spec_pass_names(),
    {
        self.pass_states.names()
    }
}

/// Setting a pass's state and reading it back gives that state; the other
/// passes keep theirs.
pub proof fn law_pass_state_read_back(
    states: Map<Seq<char>, bool>,
    name: Seq<char>,
    enabled: bool,
    other: Seq<char>,
)
    ensures
        spec_pass_enabled(states.insert(name, enabled), name) == enabled,
        other != name ==> spec_pass_enabled(states.insert(name, enabled), other)
            == spec_pass_enabled(states, other),
{
}

/// A pass that was never given a state is enabled; one that was is enabled
/// exactly when its state says so. In particular every pass is enabled in
/// fresh settings.
pub proof fn law_unset_passes_are_enabled(states: Map<Seq<char>, bool>, name: Seq<char>)
    ensures
        !states.contains_key(name) ==> spec_pass_enabled(states, name),
        states.contains_key(name) ==> spec_pass_enabled(states, name) == states[name],
        spec_pass_enabled(Map::<Seq<char>, bool>::empty(), name),
{
}

} // verus!
