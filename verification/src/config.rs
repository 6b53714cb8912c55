//! Configuration profiles: a `[default]` profile and named profiles whose settings
//! override it field by field.
use vstd::prelude::*;

use crate::text::to_owned_string;

verus! {

/// The settings one profile may give; an absent field is left to the defaults.
pub struct ProfileConfig {
    pub sample_rate: Option<u32>,
    pub channels: Option<u16>,
    pub fps: Option<u32>,
    pub source_lang: Option<String>,
    pub target_lang: Option<String>,
    pub asr_provider: Option<String>,
    pub translator_provider: Option<String>,
    pub vibevoice_dir: Option<String>,
    pub model_path: Option<String>,
    pub python_bin: Option<String>,
}

/// A configuration file: the default profile and the named profiles.
pub struct FileConfig {
    pub default: ProfileConfig,
    /// Named profiles; a name occurs at most once (they come from a map).
    pub profiles: Vec<(String, ProfileConfig)>,
}

/// The settings in effect for the chosen profile, and the file they came from.
pub struct ResolvedConfig {
    pub profile_name: String,
    pub values: ProfileConfig,
    pub source_path: Option<String>,
}

/// `a` when it is set, else `b`.
pub open spec fn or_else<T>(a: Option<T>, b: Option<T>) -> Option<T> {
    if a is Some {
        a
    } else {
        b
    }
}

/// The profile with every field of `selected` that is set, and the field of `defaults`
/// where it is not.
pub open spec fn merged(defaults: ProfileConfig, selected: ProfileConfig) -> ProfileConfig {
    ProfileConfig {
        sample_rate: or_else(selected.sample_rate, defaults.sample_rate),
        channels: or_else(selected.channels, defaults.channels),
        fps: or_else(selected.fps, defaults.fps),
        source_lang: or_else(selected.source_lang, defaults.source_lang),
        target_lang: or_else(selected.target_lang, defaults.target_lang),
        asr_provider: or_else(selected.asr_provider, defaults.asr_provider),
        translator_provider: or_else(selected.translator_provider, defaults.translator_provider),
        vibevoice_dir: or_else(selected.vibevoice_dir, defaults.vibevoice_dir),
        model_path: or_else(selected.model_path, defaults.model_path),
        python_bin: or_else(selected.python_bin, defaults.python_bin),
    }
}

/// The profile that sets nothing.
pub open spec fn empty_profile() -> ProfileConfig {
    ProfileConfig {
        sample_rate: None,
        channels: None,
        fps: None,
        source_lang: None,
        target_lang: None,
        asr_provider: None,
        translator_provider: None,
        vibevoice_dir: None,
        model_path: None,
        python_bin: None,
    }
}

/// The first `b` when set, else `a`, copied.
fn or_string(a: &Option<String>, b: &Option<String>) -> (r: Option<String>)
    ensures
        r == or_else(*a, *b),
{
    match a {
        Some(s) => Some(s.clone()),
        None => match b {
            Some(s) => Some(s.clone()),
            None => None,
        },
    }
}

impl ProfileConfig {
    /// The profile that sets nothing.
    pub fn empty() -> (r: Self)
        ensures
            r == empty_profile(),
    {
        ProfileConfig {
            sample_rate: None,
            channels: None,
            fps: None,
            source_lang: None,
            target_lang: None,
            asr_provider: None,
            translator_provider: None,
            vibevoice_dir: None,
            model_path: None,
            python_bin: None,
        }
    }

    /// A copy with the same fields.
    pub fn duplicate(&self) -> (r: Self)
        ensures
            r == *self,
    {
        merge_profile(&ProfileConfig::empty(), self)
    }
}

/// Lays the selected profile over the defaults, field by field.
pub fn merge_profile(defaults: &ProfileConfig, selected: &ProfileConfig) -> (r: ProfileConfig)
    ensures
        r == merged(*defaults, *selected),
{
    ProfileConfig {
        sample_rate: match selected.sample_rate {
            Some(v) => Some(v),
            None => defaults.sample_rate,
        },
        channels: match selected.channels {
            Some(v) => Some(v),
            None => defaults.channels,
        },
        fps: match selected.fps {
            Some(v) => Some(v),
            None => defaults.fps,
        },
        source_lang: or_string(&selected.source_lang, &defaults.source_lang),
        target_lang: or_string(&selected.target_lang, &defaults.target_lang),
        asr_provider: or_string(&selected.asr_provider, &defaults.asr_provider),
        translator_provider: or_string(&selected.translator_provider, &defaults.translator_provider),
        vibevoice_dir: or_string(&selected.vibevoice_dir, &defaults.vibevoice_dir),
        model_path: or_string(&selected.model_path, &defaults.model_path),
        python_bin: or_string(&selected.python_bin, &defaults.python_bin),
    }
}

/// The named profile `name`, if the list has one.
pub open spec fn profile_named(profiles: Seq<(String, ProfileConfig)>, name: Seq<char>) -> Option<ProfileConfig>
    decreases profiles.len(),
{
    if profiles.len() == 0 {
        None
    } else if profiles[0].0@ == name {
        Some(profiles[0].1)
    } else {
        profile_named(profiles.drop_first(), name)
    }
}

/// The settings in effect for profile `name` of a file: the profile laid over the
/// defaults, or the defaults alone when the file has no such profile.
pub open spec fn resolved_values(file: FileConfig, name: Seq<char>) -> ProfileConfig {
    merged(
        file.default,
        match profile_named(file.profiles@, name) {
            Some(p) => p,
            None => empty_profile(),
        },
    )
}

impl ResolvedConfig {
    /// Resolves profile `profile` from what was found on disk: `file` is the parsed
    /// configuration when one was read, `source_path` the path that was looked at.
    /// Without a file every setting is unset.
    pub fn resolve(profile: &str, source_path: Option<String>, file: Option<FileConfig>) -> (r: Self)
        ensures
            r.profile_name@ == profile@,
            r.source_path == source_path,
            match file {
                Some(f) => r.values == resolved_values(f, profile@),
                None => r.values == empty_profile(),
            },
    {
        let values = match file {
            Some(f) => {
                let mut chosen = ProfileConfig::empty();
                let mut i: usize = 0;
                let mut found = false;
                assert(f.profiles@.skip(0) =~= f.profiles@);
                while i < f.profiles.len()
                    invariant
                        i <= f.profiles@.len(),
                        !found ==> profile_named(f.profiles@, profile@) == profile_named(
                            f.profiles@.skip(i as int),
                            profile@,
                        ),
                        found ==> profile_named(f.profiles@, profile@) == Some(chosen),
                        !found ==> chosen == empty_profile(),
                    decreases f.profiles.len() - i,
                {
                    let ghost rest = f.profiles@.skip(i as int);
                    assert(rest.drop_first() =~= f.profiles@.skip(i + 1));
                    assert(rest[0] == f.profiles@[i as int]);
                    if !found && crate::text::str_eq(f.profiles[i].0.as_str(), profile) {
                        chosen = f.profiles[i].1.duplicate();
                        found = true;
                    }
                    i = i + 1;
                }
                proof {
                    if !found {
                        assert(f.profiles@.skip(f.profiles@.len() as int).len() == 0);
                    }
                }
                merge_profile(&f.default, &chosen)
            },
            None => ProfileConfig::empty(),
        };
        ResolvedConfig { profile_name: to_owned_string(profile), values, source_path }
    }
}

// ---------------------------------------------------------------------------
// Laws of profile merging.
// ---------------------------------------------------------------------------

/// Laying a profile that sets nothing over the defaults gives the defaults.
pub proof fn law_merge_empty_keeps_defaults(defaults: ProfileConfig)
    ensures
        merged(defaults, empty_profile()) == defaults,
{
}

/// A field set in the selected profile always wins over the defaults.
pub proof fn law_merge_selected_wins(defaults: ProfileConfig, selected: ProfileConfig)
    ensures
        selected.sample_rate is Some ==> merged(defaults, selected).sample_rate == selected.sample_rate,
        selected.channels is Some ==> merged(defaults, selected).channels == selected.channels,
        selected.fps is Some ==> merged(defaults, selected).fps == selected.fps,
        selected.source_lang is Some ==> merged(defaults, selected).source_lang == selected.source_lang,
        selected.target_lang is Some ==> merged(defaults, selected).target_lang == selected.target_lang,
        selected.asr_provider is Some ==> merged(defaults, selected).asr_provider == selected.asr_provider,
        selected.translator_provider is Some ==> merged(defaults, selected).translator_provider
            == selected.translator_provider,
        selected.vibevoice_dir is Some ==> merged(defaults, selected).vibevoice_dir == selected.vibevoice_dir,
        selected.model_path is Some ==> merged(defaults, selected).model_path == selected.model_path,
        selected.python_bin is Some ==> merged(defaults, selected).python_bin == selected.python_bin,
{
}

/// A field that the selected profile leaves unset comes from the defaults.
pub proof fn law_merge_unset_falls_back(defaults: ProfileConfig, selected: ProfileConfig)
    ensures
        selected.sample_rate is None ==> merged(defaults, selected).sample_rate == defaults.sample_rate,
        selected.channels is None ==> merged(defaults, selected).channels == defaults.channels,
        selected.fps is None ==> merged(defaults, selected).fps == defaults.fps,
        selected.source_lang is None ==> merged(defaults, selected).source_lang == defaults.source_lang,
        selected.target_lang is None ==> merged(defaults, selected).target_lang == defaults.target_lang,
        selected.asr_provider is None ==> merged(defaults, selected).asr_provider == defaults.asr_provider,
        selected.translator_provider is None ==> merged(defaults, selected).translator_provider == defaults.translator_provider,
        selected.vibevoice_dir is None ==> merged(defaults, selected).vibevoice_dir == defaults.vibevoice_dir,
        selected.model_path is None ==> merged(defaults, selected).model_path == defaults.model_path,
        selected.python_bin is None ==> merged(defaults, selected).python_bin == defaults.python_bin,
{
}

/// The profile a name picks: the first profile of the list with that name, or none when
/// no profile has it.
pub proof fn law_profile_named_first(profiles: Seq<(String, ProfileConfig)>, name: Seq<char>)
    ensures
        match profile_named(profiles, name) {
            Some(p) => exists|k: int|
                0 <= k < profiles.len() && (#[trigger] profiles[k]).0@ == name && profiles[k].1 == p
                    && forall|j: int| 0 <= j < k ==> (#[trigger] profiles[j]).0@ != name,
            None => forall|j: int| 0 <= j < profiles.len() ==> (#[trigger] profiles[j]).0@ != name,
        },
    decreases profiles.len(),
{
    if profiles.len() > 0 {
        let t = profiles.drop_first();
        law_profile_named_first(t, name);
        if profiles[0].0@ != name {
            match profile_named(t, name) {
                Some(p) => {
                    let k = choose|k: int|
                        0 <= k < t.len() && (#[trigger] t[k]).0@ == name && t[k].1 == p
                            && forall|j: int| 0 <= j < k ==> (#[trigger] t[j]).0@ != name;
                    assert(profiles[k + 1] == t[k]);
                    assert forall|j: int| 0 <= j < k + 1 implies (#[trigger] profiles[j]).0@ != name by {
                        if j > 0 {
                            assert(profiles[j] == t[j - 1]);
                        }
                    }
                },
                None => {
                    assert forall|j: int| 0 <= j < profiles.len() implies (#[trigger] profiles[j]).0@ != name by {
                        if j > 0 {
                            assert(profiles[j] == t[j - 1]);
                        }
                    }
                },
            }
        } else {
            assert(profiles[0].0@ == name);
        }
    }
}

/// Merging again with the same selected profile changes nothing.
pub proof fn law_merge_idempotent(defaults: ProfileConfig, selected: ProfileConfig)
    ensures
        merged(merged(defaults, selected), selected) == merged(defaults, selected),
{
}

/// Layering profiles is associative: laying `c` over (`b` over `a`) equals laying
/// (`c` over `b`) over `a`.
pub proof fn law_merge_associative(a: ProfileConfig, b: ProfileConfig, c: ProfileConfig)
    ensures
        merged(merged(a, b), c) == merged(a, merged(b, c)),
{
}

} // verus!
