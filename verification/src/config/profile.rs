//! Matching plugins against the profile in use.

use vstd::prelude::*;

use crate::config::{ExternalPlugin, InlinePlugin};
use crate::context::Context;

verus! {

/// A plugin that lists profiles is used only when a profile is active and
/// is one of them; one that lists none is always used.
pub proof fn lemma_profiles_restrict(ps: Seq<Seq<char>>, profile: Option<Seq<char>>)
    ensures
        spec_matches_profile(None, profile),
        spec_matches_profile(Some(ps), profile) ==> (profile matches Some(p) && ps.contains(p)),
        spec_matches_profile(Some(ps), None) == false,
        (profile matches Some(p) && ps.contains(p)) ==> spec_matches_profile(Some(ps), profile),
{
}

/// Whether a plugin with the given profiles is used under `profile`: always
/// when it lists none, otherwise only when `profile` is one of them.
pub open spec fn spec_matches_profile(
    profiles: Option<Seq<Seq<char>>>,
    profile: Option<Seq<char>>,
) -> bool {
    match profiles {
        None => true,
        Some(ps) => match profile {
            None => false,
            Some(p) => ps.contains(p),
        },
    }
}

/// The views of an optional list of profiles.
pub open spec fn profiles_view(p: Option<Vec<String>>) -> Option<Seq<Seq<char>>> {
    match p {
        Some(v) => Some(v@.map_values(|s: String| s@)),
        None => None,
    }
}

/// Whether `p` is one of `ps`.
pub fn contains_profile(ps: &Vec<String>, p: &str) -> (b: bool)
    ensures
        b == ps@.map_values(|s: String| s@).contains(p@),
{
    let ghost v = ps@.map_values(|s: String| s@);
    let mut i: usize = 0;
    while i < ps.len()
        invariant
            i <= ps.len(),
            v == ps@.map_values(|s: String| s@),
            forall|j: int| 0 <= j < i ==> v[j] != p@,
        decreases ps.len() - i,
    {
        if crate::text::str_eq(ps[i].as_str(), p) {
            assert(v[i as int] == p@);
            return true;
        }
        i = i + 1;
    }
    false
}

/// Decides whether a plugin is used under the profile of a context.
pub trait MatchesProfile {
    /// The profiles that the plugin is limited to, if any.
    fn profiles(&self) -> Option<&Vec<String>>;

    /// Whether the plugin is used under the profile of `ctx`.
    fn matches_profile(&self, ctx: &Context) -> bool;
}

/// Whether a plugin limited to `profiles` is used under the profile of
/// `ctx`.
pub fn profiles_match(profiles: Option<&Vec<String>>, ctx: &Context) -> (b: bool)
    ensures
        b == spec_matches_profile(
            match profiles {
                Some(v) => Some(v@.map_values(|s: String| s@)),
                None => None,
            },
            crate::url::opt_view(ctx.profile),
        ),
        profiles is None ==> b,
        profiles matches Some(ps) && ctx.profile is None ==> !b,
        profiles matches Some(ps) ==> (b ==> (ctx.profile matches Some(p) && ps@.map_values(
            |s: String| s@,
        ).contains(p@))),
        profiles matches Some(ps) ==> (ctx.profile matches Some(p) ==> (ps@.map_values(
            |s: String| s@,
        ).contains(p@) ==> b)),
{
    match profiles {
        None => true,
        Some(ps) => match &ctx.profile {
            None => false,
            Some(p) => contains_profile(ps, p.as_str()),
        },
    }
}

impl MatchesProfile for ExternalPlugin {
    fn profiles(&self) -> (r: Option<&Vec<String>>)
        ensures
            r == match self.profiles {
                Some(v) => Some(&v),
                None => None::<&Vec<String>>,
            },
    {
        match &self.profiles {
            Some(v) => Some(v),
            None => None,
        }
    }

    fn matches_profile(&self, ctx: &Context) -> (b: bool)
        ensures
            b == spec_matches_profile(
                profiles_view(self.profiles),
                crate::url::opt_view(ctx.profile),
            ),
    {
        profiles_match(self.profiles(), ctx)
    }
}

impl MatchesProfile for InlinePlugin {
    fn profiles(&self) -> (r: Option<&Vec<String>>)
        ensures
            r == match self.profiles {
                Some(v) => Some(&v),
                None => None::<&Vec<String>>,
            },
    {
        match &self.profiles {
            Some(v) => Some(v),
            None => None,
        }
    }

    fn matches_profile(&self, ctx: &Context) -> (b: bool)
        ensures
            b == spec_matches_profile(
                profiles_view(self.profiles),
                crate::url::opt_view(ctx.profile),
            ),
    {
        profiles_match(self.profiles(), ctx)
    }
}

} // verus!
