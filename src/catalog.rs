//! The provider catalog: tiers of providers, and the curated and default models of each provider.
use vstd::prelude::*;

use crate::text::same_text;

verus! {

/// A group of providers shown together when a provider is chosen.
pub struct ProviderTier {
    pub label: String,
    /// Pairs of provider id and display name. A tier without providers is the custom tier.
    pub providers: Vec<(String, String)>,
}

/// What the catalog knows of one provider's models.
pub struct ProviderModels {
    pub provider: String,
    pub default_model: String,
    /// Pairs of model id and description.
    pub curated: Vec<(String, String)>,
}

pub struct ProviderCatalog {
    pub tiers: Vec<ProviderTier>,
    pub models: Vec<ProviderModels>,
    /// The model used for a provider the catalog does not list.
    pub fallback_model: String,
}

/// The first entry of `ms` for provider `p`.
pub open spec fn provider_entry(ms: Seq<ProviderModels>, p: Seq<char>) -> Option<ProviderModels>
    decreases ms.len(),
{
    if ms.len() == 0 {
        None
    } else if ms[0].provider@ == p {
        Some(ms[0])
    } else {
        provider_entry(ms.drop_first(), p)
    }
}

impl ProviderCatalog {
    pub open spec fn spec_tier_labels(&self) -> Seq<Seq<char>> {
        Seq::new(self.tiers@.len(), |i: int| self.tiers@[i].label@)
    }

    pub open spec fn spec_tier_providers(&self, tier: int) -> Seq<(Seq<char>, Seq<char>)> {
        if 0 <= tier < self.tiers@.len() {
            self.tiers@[tier].providers.deep_view()
        } else {
            Seq::empty()
        }
    }

    pub open spec fn spec_curated(&self, p: Seq<char>) -> Seq<(Seq<char>, Seq<char>)> {
        match provider_entry(self.models@, p) {
            Some(e) => e.curated.deep_view(),
            None => Seq::empty(),
        }
    }

    pub open spec fn spec_default_model(&self, p: Seq<char>) -> Seq<char> {
        match provider_entry(self.models@, p) {
            Some(e) => e.default_model@,
            None => self.fallback_model@,
        }
    }
}

/// A copy of a list of text pairs.
pub fn copy_pairs(v: &Vec<(String, String)>) -> (r: Vec<(String, String)>)
    ensures
        r.deep_view() == v.deep_view(),
{
    let mut out: Vec<(String, String)> = Vec::new();
    let mut i: usize = 0;
    while i < v.len()
        invariant
            i <= v@.len(),
            out@.len() == i,
            forall|k: int|
                0 <= k < i ==> (#[trigger] out@[k]).0@ == v@[k].0@ && out@[k].1@ == v@[k].1@,
        decreases v@.len() - i,
    {
        let a = v[i].0.clone();
        let b = v[i].1.clone();
        out.push((a, b));
        i = i + 1;
    }
    proof {
        assert(out.deep_view() =~= v.deep_view());
    }
    out
}

/// Index of the catalog entry for `provider`, if it lists one.
fn find_provider(catalog: &ProviderCatalog, provider: &str) -> (r: Option<usize>)
    ensures
        match r {
            Some(i) => i < catalog.models@.len() && provider_entry(catalog.models@, provider@)
                == Some(catalog.models@[i as int]),
            None => provider_entry(catalog.models@, provider@) is None,
        },
{
    let mut i: usize = 0;
    let ghost ms = catalog.models@;
    proof {
        assert(ms.subrange(0, ms.len() as int) =~= ms);
    }
    while i < catalog.models.len()
        invariant
            ms == catalog.models@,
            i <= ms.len(),
            provider_entry(ms, provider@) == provider_entry(
                ms.subrange(i as int, ms.len() as int),
                provider@,
            ),
        decreases ms.len() - i,
    {
        let ghost rest = ms.subrange(i as int, ms.len() as int);
        if same_text(catalog.models[i].provider.as_str(), provider) {
            return Some(i);
        }
        proof {
            assert(rest.drop_first() =~= ms.subrange(i + 1, ms.len() as int));
        }
        i = i + 1;
    }
    None
}

/// The labels of the provider tiers, in catalog order.
pub fn get_provider_tiers(catalog: &ProviderCatalog) -> (r: Vec<String>)
    ensures
        r.deep_view() == catalog.spec_tier_labels(),
{
    let mut out: Vec<String> = Vec::new();
    let mut i: usize = 0;
    while i < catalog.tiers.len()
        invariant
            i <= catalog.tiers@.len(),
            out@.len() == i,
            forall|k: int| 0 <= k < i ==> (#[trigger] out@[k])@ == catalog.tiers@[k].label@,
        decreases catalog.tiers@.len() - i,
    {
        out.push(catalog.tiers[i].label.clone());
        i = i + 1;
    }
    proof {
        assert(out.deep_view() =~= catalog.spec_tier_labels());
    }
    out
}

/// The providers of tier `tier_idx`; none for the custom tier or an index past the last tier.
pub fn get_providers_for_tier(catalog: &ProviderCatalog, tier_idx: usize) -> (r: Vec<(String, String)>)
    ensures
        r.deep_view() == catalog.spec_tier_providers(tier_idx as int),
{
    if tier_idx < catalog.tiers.len() {
        copy_pairs(&catalog.tiers[tier_idx].providers)
    } else {
        let r: Vec<(String, String)> = Vec::new();
        proof {
            assert(r.deep_view() =~= Seq::<(Seq<char>, Seq<char>)>::empty());
        }
        r
    }
}

/// The curated models of `provider_name`: pairs of model id and description.
pub fn curated_models_for_provider(catalog: &ProviderCatalog, provider_name: &str) -> (r: Vec<
    (String, String),
>)
    ensures
        r.deep_view() == catalog.spec_curated(provider_name@),
{
    match find_provider(catalog, provider_name) {
        Some(i) => copy_pairs(&catalog.models[i].curated),
        None => {
            let r: Vec<(String, String)> = Vec::new();
            proof {
                assert(r.deep_view() =~= Seq::<(Seq<char>, Seq<char>)>::empty());
            }
            r
        },
    }
}

/// The model a provider is set up with when none is chosen.
pub fn default_model_for_provider(catalog: &ProviderCatalog, provider: &str) -> (r: String)
    ensures
        r@ == catalog.spec_default_model(provider@),
{
    match find_provider(catalog, provider) {
        Some(i) => catalog.models[i].default_model.clone(),
        None => catalog.fallback_model.clone(),
    }
}

} // verus!
