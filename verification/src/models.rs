//! The models a session can run on: those of the cloud, those the agent offers,
//! and those of the user's own providers.

use vstd::prelude::*;
use vstd::string::*;

use crate::text::{cat, is_empty_text, opt_view, same, trim, trimmed};
use crate::transcript::copy_text;

verus! {

/// A model that can be chosen.
#[derive(Debug, PartialEq, Eq)]
pub struct AcpModelInfo {
    pub id: String,
    pub name: String,
    pub description: Option<String>,
}

/// A model that can be chosen, mathematically.
#[verifier::ext_equal]
pub struct ModelView {
    pub id: Seq<char>,
    pub name: Seq<char>,
    pub description: Option<Seq<char>>,
}

impl View for AcpModelInfo {
    type V = ModelView;

    open spec fn view(&self) -> ModelView {
        ModelView { id: self.id@, name: self.name@, description: opt_view(self.description) }
    }
}

impl Clone for AcpModelInfo {
    fn clone(&self) -> (r: Self)
        ensures
            r == *self,
    {
        AcpModelInfo {
            id: self.id.clone(),
            name: self.name.clone(),
            description: copy_text(&self.description),
        }
    }
}

/// A model of one of the user's own providers.
#[derive(Debug, PartialEq, Eq)]
pub struct CustomModelCatalogEntry {
    pub selection_id: String,
    pub api_contract: String,
    pub model_id: String,
}

/// A model of the user's own, mathematically.
#[verifier::ext_equal]
pub struct CustomModelView {
    pub selection_id: Seq<char>,
    pub api_contract: Seq<char>,
    pub model_id: Seq<char>,
}

impl View for CustomModelCatalogEntry {
    type V = CustomModelView;

    open spec fn view(&self) -> CustomModelView {
        CustomModelView {
            selection_id: self.selection_id@,
            api_contract: self.api_contract@,
            model_id: self.model_id@,
        }
    }
}

/// Models, mathematically.
pub open spec fn models_view(v: Seq<AcpModelInfo>) -> Seq<ModelView> {
    v.map_values(|m: AcpModelInfo| m@)
}

/// The user's own models, mathematically.
pub open spec fn customs_view(v: Seq<CustomModelCatalogEntry>) -> Seq<CustomModelView> {
    v.map_values(|m: CustomModelCatalogEntry| m@)
}

/// A copy of a list of models.
pub fn copy_models(v: &Vec<AcpModelInfo>) -> (r: Vec<AcpModelInfo>)
    ensures
        r@ == v@,
{
    let mut out: Vec<AcpModelInfo> = Vec::new();
    let mut i: usize = 0;
    while i < v.len()
        invariant
            i <= v.len(),
            out@ == v@.take(i as int),
        decreases v.len() - i,
    {
        out.push(v[i].clone());
        proof {
            assert(v@.take(i + 1) =~= v@.take(i as int).push(v@[i as int]));
        }
        i += 1;
    }
    proof {
        assert(v@.take(v@.len() as int) =~= v@);
    }
    out
}

fn add_model(out: &mut Vec<AcpModelInfo>, m: AcpModelInfo)
    ensures
        models_view(final(out)@) == models_view(old(out)@).push(m@),
{
    out.push(m);
    proof {
        assert(models_view(out@) =~= models_view(old(out)@).push(m@));
    }
}

// ---------------------------------------------------------------------------
// The user's own models
// ---------------------------------------------------------------------------

/// An entry of the catalog without the white space round its ids.
pub open spec fn tidy_entry(m: CustomModelView) -> CustomModelView {
    CustomModelView {
        selection_id: trimmed(m.selection_id),
        api_contract: m.api_contract,
        model_id: trimmed(m.model_id),
    }
}

/// An entry that names a model.
pub open spec fn usable_entry(m: CustomModelView) -> bool {
    m.selection_id.len() > 0 && m.model_id.len() > 0
}

/// The entries of a catalog that name a model, tidied, in their order.
pub open spec fn tidy_catalog(v: Seq<CustomModelView>) -> Seq<CustomModelView> {
    v.map_values(|m: CustomModelView| tidy_entry(m)).filter(|m: CustomModelView| usable_entry(m))
}

/// Tidies a catalog and drops the entries that name no model.
pub fn normalize_catalog(v: Vec<CustomModelCatalogEntry>) -> (r: Vec<CustomModelCatalogEntry>)
    ensures
        customs_view(r@) == tidy_catalog(customs_view(v@)),
{
    let ghost all = customs_view(v@).map_values(|m: CustomModelView| tidy_entry(m));
    let ghost p = |m: CustomModelView| usable_entry(m);
    let mut out: Vec<CustomModelCatalogEntry> = Vec::new();
    let mut i: usize = 0;
    proof {
        assert(customs_view(out@) =~= all.take(0).filter(p));
    }
    while i < v.len()
        invariant
            i <= v.len(),
            all == customs_view(v@).map_values(|m: CustomModelView| tidy_entry(m)),
            p == (|m: CustomModelView| usable_entry(m)),
            customs_view(out@) == all.take(i as int).filter(p),
        decreases v.len() - i,
    {
        let entry = CustomModelCatalogEntry {
            selection_id: trim(v[i].selection_id.as_str()),
            api_contract: v[i].api_contract.clone(),
            model_id: trim(v[i].model_id.as_str()),
        };
        proof {
            assert(entry@ == all[i as int]);
            assert(all.take(i + 1) =~= all.take(i as int).push(entry@));
            all.take(i as int).lemma_filter_push(entry@, p);
        }
        if !is_empty_text(entry.selection_id.as_str()) && !is_empty_text(entry.model_id.as_str()) {
            let ghost had = customs_view(out@);
            out.push(entry);
            proof {
                assert(customs_view(out@) =~= had.push(entry@));
            }
        }
        i += 1;
    }
    proof {
        assert(all.take(all.len() as int) =~= all);
    }
    out
}

/// A selection without white space round it; a blank one is none.
pub open spec fn tidy_selection(s: Option<Seq<char>>) -> Option<Seq<char>> {
    match s {
        Some(s) => if trimmed(s).len() > 0 {
            Some(trimmed(s))
        } else {
            None
        },
        None => None,
    }
}

/// Tidies a selection.
pub fn normalize_selection(s: Option<String>) -> (r: Option<String>)
    ensures
        opt_view(r) == tidy_selection(opt_view(s)),
{
    match s {
        Some(s) => {
            let t = trim(s.as_str());
            if is_empty_text(t.as_str()) {
                None
            } else {
                Some(t)
            }
        },
        None => None,
    }
}

/// How a model of the user's own is listed.
pub open spec fn own_row(m: CustomModelView) -> ModelView {
    ModelView { id: m.selection_id, name: m.model_id + " (BYOK)"@, description: None }
}

/// The user's own models as they are listed.
pub open spec fn own_rows(v: Seq<CustomModelView>) -> Seq<ModelView> {
    v.map_values(|m: CustomModelView| own_row(m))
}

/// Under which id an agent lists a model that it has from the user's provider.
pub open spec fn provided_id(m: CustomModelView) -> Seq<char> {
    "intelligent-terminal/"@ + m.model_id
}

/// Whether a model of the agent is one of the user's own.
pub open spec fn is_provided(m: ModelView, catalog: Seq<CustomModelView>) -> bool {
    exists|i: int| 0 <= i < catalog.len() && m.id == #[trigger] provided_id(catalog[i])
}

/// The models of an agent that are not the user's own.
pub open spec fn native_models(models: Seq<ModelView>, catalog: Seq<CustomModelView>) -> Seq<
    ModelView,
> {
    models.filter(|m: ModelView| !is_provided(m, catalog))
}

/// An agent's models with the user's own in place of the agent's names for
/// them.
pub open spec fn merged_models(models: Seq<ModelView>, catalog: Seq<CustomModelView>) -> Seq<
    ModelView,
> {
    native_models(models, catalog) + own_rows(catalog)
}

fn is_provided_model(m: &AcpModelInfo, catalog: &Vec<CustomModelCatalogEntry>) -> (r: bool)
    ensures
        r == is_provided(m@, customs_view(catalog@)),
{
    let mut i: usize = 0;
    while i < catalog.len()
        invariant
            i <= catalog.len(),
            forall|k: int| 0 <= k < i ==> m@.id != #[trigger] provided_id(customs_view(catalog@)[k]),
        decreases catalog.len() - i,
    {
        let id = cat("intelligent-terminal/", catalog[i].model_id.as_str());
        proof {
            assert(customs_view(catalog@)[i as int] == catalog@[i as int]@);
            assert(id@ == provided_id(customs_view(catalog@)[i as int]));
        }
        if same(m.id.as_str(), id.as_str()) {
            return true;
        }
        i += 1;
    }
    false
}

/// The models of an agent that are not the user's own.
pub fn natives(models: &Vec<AcpModelInfo>, catalog: &Vec<CustomModelCatalogEntry>) -> (r: Vec<
    AcpModelInfo,
>)
    ensures
        models_view(r@) == native_models(models_view(models@), customs_view(catalog@)),
{
    let ghost all = models_view(models@);
    let ghost c = customs_view(catalog@);
    let ghost p = |m: ModelView| !is_provided(m, c);
    let mut out: Vec<AcpModelInfo> = Vec::new();
    let mut i: usize = 0;
    proof {
        assert(models_view(out@) =~= all.take(0).filter(p));
    }
    while i < models.len()
        invariant
            i <= models.len(),
            all == models_view(models@),
            c == customs_view(catalog@),
            p == (|m: ModelView| !is_provided(m, c)),
            models_view(out@) == all.take(i as int).filter(p),
        decreases models.len() - i,
    {
        proof {
            assert(all.take(i + 1) =~= all.take(i as int).push(models@[i as int]@));
            all.take(i as int).lemma_filter_push(models@[i as int]@, p);
        }
        if !is_provided_model(&models[i], catalog) {
            add_model(&mut out, models[i].clone());
        }
        i += 1;
    }
    proof {
        assert(all.take(all.len() as int) =~= all);
    }
    out
}

fn add_own_rows(out: &mut Vec<AcpModelInfo>, catalog: &Vec<CustomModelCatalogEntry>)
    ensures
        models_view(final(out)@) == models_view(old(out)@) + own_rows(customs_view(catalog@)),
{
    let ghost above = models_view(out@);
    let ghost rows = own_rows(customs_view(catalog@));
    let mut i: usize = 0;
    proof {
        assert(above + rows.take(0) =~= above);
    }
    while i < catalog.len()
        invariant
            i <= catalog.len(),
            rows == own_rows(customs_view(catalog@)),
            models_view(out@) == above + rows.take(i as int),
        decreases catalog.len() - i,
    {
        add_model(
            out,
            AcpModelInfo {
                id: catalog[i].selection_id.clone(),
                name: cat(catalog[i].model_id.as_str(), " (BYOK)"),
                description: None,
            },
        );
        proof {
            assert(rows[i as int] == own_row(catalog@[i as int]@));
            assert(models_view(out@) =~= above + rows.take(i + 1));
        }
        i += 1;
    }
    proof {
        assert(rows.take(rows.len() as int) =~= rows);
    }
}

/// An agent's models with the user's own in place of the agent's names for
/// them.
pub fn merge_models(models: &Vec<AcpModelInfo>, catalog: &Vec<CustomModelCatalogEntry>) -> (r: Vec<
    AcpModelInfo,
>)
    ensures
        models_view(r@) == merged_models(models_view(models@), customs_view(catalog@)),
{
    let mut out = natives(models, catalog);
    add_own_rows(&mut out, catalog);
    out
}

// ---------------------------------------------------------------------------
// The whole choice
// ---------------------------------------------------------------------------

/// Whether a model of that id is among the models.
pub open spec fn has_model(models: Seq<ModelView>, id: Seq<char>) -> bool {
    exists|i: int| 0 <= i < models.len() && (#[trigger] models[i]).id == id
}

/// The models of the cloud, and those of the agent that the cloud does not
/// already list.
pub open spec fn hosted_models(cloud: Seq<ModelView>, agent: Seq<ModelView>) -> Seq<ModelView> {
    cloud + agent.filter(|m: ModelView| !has_model(cloud, m.id))
}

/// Whether a model of that id is among the models.
pub fn contains_model(models: &Vec<AcpModelInfo>, id: &str) -> (r: bool)
    ensures
        r == has_model(models_view(models@), id@),
{
    let mut i: usize = 0;
    while i < models.len()
        invariant
            i <= models.len(),
            forall|k: int| 0 <= k < i ==> (#[trigger] models_view(models@)[k]).id != id@,
        decreases models.len() - i,
    {
        proof {
            assert(models_view(models@)[i as int] == models@[i as int]@);
        }
        if same(models[i].id.as_str(), id) {
            return true;
        }
        i += 1;
    }
    false
}

/// The models of the cloud, and those of the agent that the cloud does not
/// already list.
pub fn hosted(cloud: &Vec<AcpModelInfo>, agent: &Vec<AcpModelInfo>) -> (r: Vec<AcpModelInfo>)
    ensures
        models_view(r@) == hosted_models(models_view(cloud@), models_view(agent@)),
{
    let mut out = copy_models(cloud);
    let ghost c = models_view(cloud@);
    let ghost all = models_view(agent@);
    let ghost p = |m: ModelView| !has_model(c, m.id);
    let mut i: usize = 0;
    proof {
        assert(c + all.take(0).filter(p) =~= c);
    }
    while i < agent.len()
        invariant
            i <= agent.len(),
            c == models_view(cloud@),
            all == models_view(agent@),
            p == (|m: ModelView| !has_model(c, m.id)),
            models_view(out@) == c + all.take(i as int).filter(p),
        decreases agent.len() - i,
    {
        proof {
            assert(all.take(i + 1) =~= all.take(i as int).push(agent@[i as int]@));
            all.take(i as int).lemma_filter_push(agent@[i as int]@, p);
        }
        if !contains_model(cloud, agent[i].id.as_str()) {
            let ghost had = models_view(out@);
            add_model(&mut out, agent[i].clone());
            proof {
                assert(models_view(out@) =~= c + all.take(i + 1).filter(p));
            }
        }
        i += 1;
    }
    proof {
        assert(all.take(all.len() as int) =~= all);
    }
    out
}

/// The entry of the catalog that a selection names: the first.
pub open spec fn selected_entry(catalog: Seq<CustomModelView>, selection: Option<Seq<char>>) -> Option<
    CustomModelView,
>
    decreases catalog.len(),
{
    match selection {
        None => None,
        Some(id) => if catalog.len() == 0 {
            None
        } else if catalog[0].selection_id == id {
            Some(catalog[0])
        } else {
            selected_entry(catalog.skip(1), selection)
        },
    }
}

/// What the model picker offers: while one of the user's own models is
/// selected, that model alone; else the models of cloud and agent.
pub open spec fn pickable_models(
    hosted: Seq<ModelView>,
    catalog: Seq<CustomModelView>,
    selection: Option<Seq<char>>,
) -> Seq<ModelView> {
    match selected_entry(catalog, selection) {
        Some(m) => seq![own_row(m)],
        None => native_models(hosted, catalog),
    }
}

/// What the model picker offers.
pub fn pickable(
    hosted: &Vec<AcpModelInfo>,
    catalog: &Vec<CustomModelCatalogEntry>,
    selection: &Option<String>,
) -> (r: Vec<AcpModelInfo>)
    ensures
        models_view(r@) == pickable_models(
            models_view(hosted@),
            customs_view(catalog@),
            opt_view(*selection),
        ),
{
    let ghost c = customs_view(catalog@);
    if let Some(id) = selection {
        let mut i: usize = 0;
        proof {
            assert(c.skip(0) =~= c);
        }
        while i < catalog.len()
            invariant
                i <= catalog.len(),
                c == customs_view(catalog@),
                *selection == Some(*id),
                selected_entry(c, opt_view(*selection)) == selected_entry(
                    c.skip(i as int),
                    opt_view(*selection),
                ),
            decreases catalog.len() - i,
        {
            proof {
                assert(c.skip(i as int)[0] == catalog@[i as int]@);
                assert(c.skip(i as int).skip(1) =~= c.skip(i + 1));
            }
            if same(catalog[i].selection_id.as_str(), id.as_str()) {
                let mut out: Vec<AcpModelInfo> = Vec::new();
                out.push(
                    AcpModelInfo {
                        id: catalog[i].selection_id.clone(),
                        name: cat(catalog[i].model_id.as_str(), " (BYOK)"),
                        description: None,
                    },
                );
                proof {
                    assert(models_view(out@) =~= seq![own_row(catalog@[i as int]@)]);
                }
                return out;
            }
            i += 1;
        }
        proof {
            assert(c.skip(c.len() as int) =~= Seq::<CustomModelView>::empty());
        }
    }
    natives(hosted, catalog)
}

/// The name of the first model with the id, or the id itself.
pub open spec fn display_name(models: Seq<ModelView>, id: Seq<char>) -> Seq<char>
    decreases models.len(),
{
    if models.len() == 0 {
        id
    } else if models[0].id == id {
        models[0].name
    } else {
        display_name(models.skip(1), id)
    }
}

/// The name under which a model is shown.
pub fn display_name_of(models: &Vec<AcpModelInfo>, id: &str) -> (r: String)
    ensures
        r@ == display_name(models_view(models@), id@),
{
    let ghost all = models_view(models@);
    let mut i: usize = 0;
    proof {
        assert(all.skip(0) =~= all);
    }
    while i < models.len()
        invariant
            i <= models.len(),
            all == models_view(models@),
            display_name(all, id@) == display_name(all.skip(i as int), id@),
        decreases models.len() - i,
    {
        proof {
            assert(all.skip(i as int)[0] == models@[i as int]@);
            assert(all.skip(i as int).skip(1) =~= all.skip(i + 1));
        }
        if same(models[i].id.as_str(), id) {
            return models[i].name.clone();
        }
        i += 1;
    }
    id.to_owned()
}

// ---------------------------------------------------------------------------
// Laws
// ---------------------------------------------------------------------------

/// While a model of the user's own is selected the picker offers it alone;
/// otherwise it offers none of the catalog's rows that cloud and agent do not
/// have themselves.
pub proof fn law_picker_keeps_to_the_active_side(
    hosted: Seq<ModelView>,
    catalog: Seq<CustomModelView>,
    selection: Option<Seq<char>>,
)
    ensures
        selected_entry(catalog, selection) is Some ==> {
            &&& pickable_models(hosted, catalog, selection).len() == 1
            &&& Some(pickable_models(hosted, catalog, selection)[0].id) == selection
        },
        selected_entry(catalog, selection) is None ==> forall|m: ModelView| #[trigger]
            pickable_models(hosted, catalog, selection).contains(m) ==> hosted.contains(m),
    decreases catalog.len(),
{
    if selected_entry(catalog, selection) is Some {
        lemma_selected_entry(catalog, selection);
    } else {
        assert forall|m: ModelView| #[trigger]
            pickable_models(hosted, catalog, selection).contains(m) implies hosted.contains(m) by {
            let p = |m: ModelView| !is_provided(m, catalog);
            hosted.filter_lemma(p);
            let r = hosted.filter(p);
            let k = choose|k: int| 0 <= k < r.len() && r[k] == m;
            hosted.lemma_filter_contains_rev(p, m);
        }
    }
}

proof fn lemma_selected_entry(catalog: Seq<CustomModelView>, selection: Option<Seq<char>>)
    requires
        selected_entry(catalog, selection) is Some,
    ensures
        selection == Some(selected_entry(catalog, selection)->0.selection_id),
    decreases catalog.len(),
{
    if catalog[0].selection_id != selection->0 {
        lemma_selected_entry(catalog.skip(1), selection);
    }
}

/// In a merged list every model of the user's own has a row, and the agent's
/// own name for it has none.
pub proof fn law_own_models_replace_the_agents(
    models: Seq<ModelView>,
    catalog: Seq<CustomModelView>,
)
    ensures
        forall|i: int|
            0 <= i < catalog.len() ==> merged_models(models, catalog).contains(
                #[trigger] own_row(catalog[i]),
            ),
        forall|k: int|
            0 <= k < native_models(models, catalog).len() ==> !is_provided(
                #[trigger] native_models(models, catalog)[k],
                catalog,
            ),
{
    let natives = native_models(models, catalog);
    assert forall|i: int| 0 <= i < catalog.len() implies merged_models(models, catalog).contains(
        #[trigger] own_row(catalog[i]),
    ) by {
        assert(merged_models(models, catalog)[natives.len() + i] == own_row(catalog[i]));
    }
    let p = |m: ModelView| !is_provided(m, catalog);
    assert forall|k: int| 0 <= k < natives.len() implies !is_provided(#[trigger] natives[k], catalog) by {
        models.lemma_filter_pred(p, k);
        assert(p(natives[k]));
    }
}

/// A tidied catalog names a model in every entry.
pub proof fn law_catalog_entries_name_models(v: Seq<CustomModelView>)
    ensures
        forall|i: int| 0 <= i < tidy_catalog(v).len() ==> usable_entry(#[trigger] tidy_catalog(v)[i]),
{
    let all = v.map_values(|m: CustomModelView| tidy_entry(m));
    let p = |m: CustomModelView| usable_entry(m);
    assert forall|i: int| 0 <= i < tidy_catalog(v).len() implies usable_entry(
        #[trigger] tidy_catalog(v)[i],
    ) by {
        all.lemma_filter_pred(p, i);
        assert(p(tidy_catalog(v)[i]));
    }
}

/// The models that are offered are those of the cloud and those that only the agent
/// has, the cloud's first, each id once.
pub proof fn law_the_cloud_comes_first(cloud: Seq<ModelView>, agent: Seq<ModelView>, m: ModelView)
    ensures
        cloud.is_prefix_of(hosted_models(cloud, agent)),
        cloud.contains(m) ==> hosted_models(cloud, agent).contains(m),
        agent.contains(m) && !has_model(cloud, m.id) ==> hosted_models(cloud, agent).contains(m),
        hosted_models(cloud, agent).contains(m) ==> cloud.contains(m) || agent.contains(m),
{
    let p = |m: ModelView| !has_model(cloud, m.id);
    let more = agent.filter(p);
    let all = hosted_models(cloud, agent);
    assert(all == cloud + more);
    if cloud.contains(m) {
        let k = choose|k: int| 0 <= k < cloud.len() && cloud[k] == m;
        assert(all[k] == m);
    }
    if agent.contains(m) && !has_model(cloud, m.id) {
        agent.filter_lemma(p);
        let k = choose|k: int| 0 <= k < agent.len() && agent[k] == m;
        assert(p(agent[k]));
        assert(more.contains(m));
        let j = choose|j: int| 0 <= j < more.len() && more[j] == m;
        assert(all[cloud.len() + j] == m);
    }
    if all.contains(m) {
        let k = choose|k: int| 0 <= k < all.len() && all[k] == m;
        if k < cloud.len() {
            assert(cloud[k] == m);
        } else {
            assert(more[k - cloud.len()] == m);
            agent.lemma_filter_contains_rev(p, m);
        }
    }
}

/// A model of the user's own is picked by its id and shown by its name, as one of
/// their own.
pub proof fn law_an_own_model_is_shown_as_one(m: CustomModelView)
    ensures
        own_row(m).id == m.selection_id,
        own_row(m).name == m.model_id + " (BYOK)"@,
        own_row(m).description is None,
        provided_id(m) == "intelligent-terminal/"@ + m.model_id,
{
}

/// A model is shown by the name that goes with its id, the first of that id, and one
/// that is not in the list by its id.
pub proof fn law_a_model_is_shown_by_its_name(models: Seq<ModelView>, id: Seq<char>, i: int)
    ensures
        0 <= i < models.len() && models[i].id == id && (forall|k: int|
            0 <= k < i ==> (#[trigger] models[k]).id != id) ==> display_name(models, id)
            == models[i].name,
        !has_model(models, id) ==> display_name(models, id) == id,
    decreases models.len(),
{
    if models.len() > 0 && models[0].id != id {
        let rest = models.skip(1);
        assert forall|k: int| 0 <= k < rest.len() implies #[trigger] rest[k] == models[k + 1] by {}
        law_a_model_is_shown_by_its_name(rest, id, i - 1);
        if 0 < i < models.len() {
            assert(rest[i - 1] == models[i]);
        }
        if has_model(rest, id) {
            let k = choose|k: int| 0 <= k < rest.len() && (#[trigger] rest[k]).id == id;
            assert(models[k + 1].id == id);
        }
    }
}

/// A catalog entry is taken without the blanks around it, and a selection of blanks
/// is none.
pub proof fn law_entries_are_taken_without_blanks(m: CustomModelView, s: Seq<char>)
    ensures
        tidy_entry(m).selection_id == trimmed(m.selection_id),
        tidy_entry(m).model_id == trimmed(m.model_id),
        tidy_entry(m).api_contract == m.api_contract,
        tidy_selection(None) is None,
        trimmed(s).len() == 0 ==> tidy_selection(Some(s)) is None,
        trimmed(s).len() > 0 ==> tidy_selection(Some(s)) == Some(trimmed(s)),
        usable_entry(m) <==> m.selection_id.len() > 0 && m.model_id.len() > 0,
{
}

} // verus!
