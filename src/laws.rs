//! Properties of the generation as a whole.
use vstd::prelude::*;
use crate::graph::{spec_graph, ConfigurationListView};
use crate::ids::seed_of;
use crate::targets::{
    classify, prefix_emissions, spec_is_relevant, target_emissions, kind_emissions, kind_of_tag,
    EmissionView, PackageInfo, PackageVersion, TargetInfo, TargetKind,
};
use crate::project_document;

verus! {

/// Whether a configuration list holds exactly Release and then Debug, with
/// Release the default.
pub open spec fn is_release_debug_pair(l: ConfigurationListView) -> bool {
    &&& l.configurations.len() == 2
    &&& l.configurations[0].name == "Release"@
    &&& l.configurations[1].name == "Debug"@
    &&& l.default_name == "Release"@
}

/// Two packages with the same identity, name, version and targets give the
/// same project file, character for character.
pub proof fn lemma_deterministic(
    a: PackageInfo,
    b: PackageInfo,
    custom: Option<Seq<char>>,
    manifest_path: Seq<char>,
)
    requires
        a.id@ == b.id@,
        a.name@ == b.name@,
        a.version == b.version,
        a.targets@ == b.targets@,
    ensures
        project_document(seed_of(a.id@), a, custom, manifest_path) == project_document(
            seed_of(b.id@),
            b,
            custom,
            manifest_path,
        ),
{
}

/// The objects of a product, and the tokens the project shares, depend on
/// the seed and on that product alone: neither the other products nor their
/// order change them.
pub proof fn lemma_tokens_stable(
    seed: u64,
    name: Seq<char>,
    v: PackageVersion,
    es1: Seq<EmissionView>,
    es2: Seq<EmissionView>,
    path: Seq<char>,
    i: int,
    j: int,
)
    requires
        0 <= i < es1.len(),
        0 <= j < es2.len(),
        es1[i] == es2[j],
    ensures
        ({
            let g1 = spec_graph(seed, name, v, es1, path);
            let g2 = spec_graph(seed, name, v, es2, path);
            &&& g1.targets[i] == g2.targets[j]
            &&& g1.products_group.children[i] == g2.products_group.children[j]
            &&& g1.target_list[i] == g2.target_list[j]
            &&& g1.project == g2.project
            &&& g1.manifest_ref == g2.manifest_ref
            &&& g1.build_rule == g2.build_rule
            &&& g1.merge_phase == g2.merge_phase
            &&& g1.main_group.id == g2.main_group.id
            &&& g1.products_group.id == g2.products_group.id
            &&& g1.frameworks_group.id == g2.frameworks_group.id
            &&& g1.configuration_list.id == g2.configuration_list.id
        }),
{
}

proof fn lemma_kinds_none(t: TargetInfo, custom: Option<Seq<char>>, n: nat)
    requires
        n <= t.kind@.len(),
        !spec_is_relevant(t),
    ensures
        kind_emissions(t, custom, n) == Seq::<EmissionView>::empty(),
    decreases n,
{
    if n > 0 {
        lemma_kinds_none(t, custom, (n - 1) as nat);
        assert(kind_of_tag(t.kind@[n - 1]@).is_none());
    }
}

proof fn lemma_prefix_concat(
    a: Seq<TargetInfo>,
    b: Seq<TargetInfo>,
    custom: Option<Seq<char>>,
    n: nat,
)
    requires
        n <= b.len(),
    ensures
        prefix_emissions(a + b, custom, a.len() + n) == classify(a, custom) + prefix_emissions(
            b,
            custom,
            n,
        ),
    decreases n,
{
    if n == 0 {
        assert(prefix_emissions(a + b, custom, a.len()) == prefix_emissions(a, custom, a.len()))
            by {
            lemma_prefix_agree(a + b, a, custom, a.len());
        }
        assert(classify(a, custom) + Seq::<EmissionView>::empty() =~= classify(a, custom));
    } else {
        lemma_prefix_concat(a, b, custom, (n - 1) as nat);
        assert((a + b)[a.len() + n - 1] == b[n - 1]);
        assert(classify(a, custom) + prefix_emissions(b, custom, (n - 1) as nat) + target_emissions(
            b[n - 1],
            custom,
        ) =~= classify(a, custom) + (prefix_emissions(b, custom, (n - 1) as nat)
            + target_emissions(b[n - 1], custom)));
    }
}

proof fn lemma_prefix_agree(x: Seq<TargetInfo>, y: Seq<TargetInfo>, custom: Option<Seq<char>>, n: nat)
    requires
        n <= x.len(),
        n <= y.len(),
        forall|k: int| 0 <= k < n ==> x[k] == y[k],
    ensures
        prefix_emissions(x, custom, n) == prefix_emissions(y, custom, n),
    decreases n,
{
    if n > 0 {
        lemma_prefix_agree(x, y, custom, (n - 1) as nat);
    }
}

/// The products of a list of targets are those of its first part followed
/// by those of the rest.
pub proof fn lemma_classify_concat(a: Seq<TargetInfo>, b: Seq<TargetInfo>, custom: Option<Seq<char>>)
    ensures
        classify(a + b, custom) == classify(a, custom) + classify(b, custom),
{
    lemma_prefix_concat(a, b, custom, b.len());
}

proof fn lemma_classify_single(t: TargetInfo, custom: Option<Seq<char>>)
    ensures
        classify(seq![t], custom) == target_emissions(t, custom),
{
    assert(seq![t][0] == t);
    assert(seq![t].len() == 1);
    assert(prefix_emissions(seq![t], custom, 0) == Seq::<EmissionView>::empty());
    assert(prefix_emissions(seq![t], custom, 1) == prefix_emissions(seq![t], custom, 0)
        + target_emissions(t, custom));
    assert(Seq::<EmissionView>::empty() + target_emissions(t, custom) =~= target_emissions(
        t,
        custom,
    ));
}

proof fn lemma_classify_drop(
    a: Seq<TargetInfo>,
    t: TargetInfo,
    b: Seq<TargetInfo>,
    custom: Option<Seq<char>>,
)
    requires
        !spec_is_relevant(t),
    ensures
        target_emissions(t, custom) == Seq::<EmissionView>::empty(),
        classify(a + seq![t] + b, custom) == classify(a + b, custom),
{
    lemma_kinds_none(t, custom, t.kind@.len());
    lemma_classify_concat(a + seq![t], b, custom);
    lemma_classify_concat(a, seq![t], custom);
    lemma_classify_concat(a, b, custom);
    lemma_classify_single(t, custom);
    assert(classify(a, custom) + Seq::<EmissionView>::empty() =~= classify(a, custom));
}

/// A target whose kinds are all of the kinds that are not built (tests,
/// examples, plain libraries) gives no product, and adding it anywhere
/// among the targets changes neither the products nor the graph.
pub proof fn lemma_irrelevant_target_dropped(
    a: Seq<TargetInfo>,
    t: TargetInfo,
    b: Seq<TargetInfo>,
    custom: Option<Seq<char>>,
    seed: u64,
    name: Seq<char>,
    v: PackageVersion,
    path: Seq<char>,
)
    requires
        !spec_is_relevant(t),
    ensures
        target_emissions(t, custom) == Seq::<EmissionView>::empty(),
        classify(a + seq![t] + b, custom) == classify(a + b, custom),
        spec_graph(seed, name, v, classify(a + seq![t] + b, custom), path) == spec_graph(
            seed,
            name,
            v,
            classify(a + b, custom),
            path,
        ),
{
    lemma_classify_drop(a, t, b, custom);
}

/// The system resolver library, and its place in the Frameworks group, are
/// in the graph exactly when some product is a static library.
pub proof fn lemma_system_library_iff_static(
    seed: u64,
    name: Seq<char>,
    v: PackageVersion,
    es: Seq<EmissionView>,
    path: Seq<char>,
)
    ensures
        ({
            let g = spec_graph(seed, name, v, es, path);
            &&& g.system_library.is_some() <==> (exists|i: int|
                0 <= i < es.len() && (#[trigger] es[i]).kind == TargetKind::StaticLibrary)
            &&& g.frameworks_group.children.len() > 0 <==> g.system_library.is_some()
        }),
{
}

/// The project lists one native target for each product, and the Products
/// group one file reference for each, in the order of the products.
pub proof fn lemma_one_target_per_product(
    seed: u64,
    name: Seq<char>,
    v: PackageVersion,
    es: Seq<EmissionView>,
    path: Seq<char>,
)
    ensures
        ({
            let g = spec_graph(seed, name, v, es, path);
            &&& g.targets.len() == es.len()
            &&& g.target_list.len() == es.len()
            &&& g.products_group.children.len() == es.len()
            &&& forall|i: int|
                0 <= i < es.len() ==> g.target_list[i] == (#[trigger] g.targets[i]).native_target
                    && g.products_group.children[i] == g.targets[i].product_ref
                    && g.targets[i].target == es[i]
        }),
{
}

/// Every configuration list, the project's and each product's, holds
/// exactly Release and Debug, with Release the default.
pub proof fn lemma_configuration_pairs(
    seed: u64,
    name: Seq<char>,
    v: PackageVersion,
    es: Seq<EmissionView>,
    path: Seq<char>,
)
    ensures
        ({
            let g = spec_graph(seed, name, v, es, path);
            &&& is_release_debug_pair(g.configuration_list)
            &&& forall|i: int|
                0 <= i < g.targets.len() ==> is_release_debug_pair(
                    (#[trigger] g.targets[i]).configuration_list,
                )
        }),
{
}

} // verus!
