//! Aggregation: maps flat route records to display entries, combines the
//! per-namespace scan outcomes of one cluster, and assembles the full
//! snapshot across the local cluster and every remote group.

use vstd::prelude::*;
use vstd::string::StringExecFns;

use crate::config::{Config, ConfigV, RemoteClusterV, RemoteGroupV, spec_only_with_annotation,
    spec_local_active};
use crate::errors::{Error, ErrorV};
use crate::https_prefix;
use crate::model::{
    ClusterInfo, ClusterInfoV, GroupInfo, GroupInfoV, IngressInfo, IngressInfoV, IngressObject,
    IngressObjectV, IngressSpec, IngressSpecV, description_annotation, description_annotation_key,
    lookup_value, name_annotation, name_annotation_key, spec_lookup,
};
use crate::scan::{collect_ingresses, lemma_records_concat, records_of_objects};

verus! {

/// The display entry derived from one route record: the two well-known
/// annotation keys override name and description, and the URL is the scheme
/// prefix, the host, and the path (or `/` when the record carries none).
pub open spec fn info_of(s: IngressSpecV) -> IngressInfoV {
    IngressInfoV {
        name: match spec_lookup(s.annotations, name_annotation()) {
            Some(n) => n,
            None => s.name,
        },
        description: match spec_lookup(s.annotations, description_annotation()) {
            Some(d) => d,
            None => Seq::empty(),
        },
        url: https_prefix() + s.host + match s.path {
            Some(p) => p,
            None => "/"@,
        },
    }
}

/// The display entries of a record list, in record order.
pub open spec fn infos_of(records: Seq<IngressSpecV>) -> Seq<IngressInfoV> {
    records.map_values(|s: IngressSpecV| info_of(s))
}

/// The cluster entry built from a name, an optional description and the
/// combined record list.
pub open spec fn cluster_info_of(
    name: Seq<char>,
    description: Option<Seq<char>>,
    records: Seq<IngressSpecV>,
) -> ClusterInfoV {
    ClusterInfoV {
        name: name,
        description: match description {
            Some(d) => d,
            None => Seq::empty(),
        },
        ingresses: infos_of(records),
    }
}

/// Annotation override law: a record carrying both well-known annotation
/// keys yields a display entry named and described by their values, no
/// matter what the record's own name is.
pub proof fn lemma_annotation_override(s: IngressSpecV, n: Seq<char>, d: Seq<char>)
    requires
        spec_lookup(s.annotations, name_annotation()) == Some(n),
        spec_lookup(s.annotations, description_annotation()) == Some(d),
    ensures
        info_of(s).name == n,
        info_of(s).description == d,
{
}

/// Builds the display entry for one route record.
fn to_info(i: &IngressSpec) -> (r: IngressInfo)
    ensures
        r.deep_view() == info_of(i.deep_view()),
{
    let mut url = "https://".to_owned();
    url.append(i.host.as_str());
    match &i.path {
        Some(p) => url.append(p.as_str()),
        None => url.append("/"),
    }
    let name = match lookup_value(&i.annotations, &name_annotation_key()) {
        Some(n) => n.clone(),
        None => i.name.clone(),
    };
    let description = match lookup_value(&i.annotations, &description_annotation_key()) {
        Some(d) => d.clone(),
        None => String::new(),
    };
    let r = IngressInfo { name, description, url };
    proof {
        assert(r.url@ =~= https_prefix() + i.deep_view().host + match i.deep_view().path {
            Some(p) => p,
            None => "/"@,
        });
        assert(r.deep_view() =~= info_of(i.deep_view()));
    }
    r
}

/// Maps a combined record list into one cluster entry, applying the
/// annotation overrides and building each record's URL.
pub fn transform_to_info(
    cluster_name: String,
    description: &Option<String>,
    input: Vec<IngressSpec>,
) -> (r: ClusterInfo)
    ensures
        r.deep_view() == cluster_info_of(cluster_name@, description.deep_view(), input.deep_view()),
{
    let ghost inputv = input.deep_view();
    let mut ingresses: Vec<IngressInfo> = Vec::new();
    for idx in 0..input.len()
        invariant
            inputv == input.deep_view(),
            idx <= input@.len(),
            ingresses.deep_view() =~= infos_of(inputv.take(idx as int)),
    {
        let info = to_info(&input[idx]);
        let ghost prior = ingresses.deep_view();
        let ghost infov = info.deep_view();
        ingresses.push(info);
        proof {
            assert(ingresses.deep_view() =~= prior.push(infov));
            assert(infos_of(inputv.take(idx + 1)) =~= infos_of(inputv.take(idx as int)).push(
                info_of(inputv[idx as int]),
            ));
        }
    }
    let description_owned = match description {
        Some(d) => d.clone(),
        None => String::new(),
    };
    let r = ClusterInfo { name: cluster_name, description: description_owned, ingresses };
    proof {
        assert(inputv.take(input@.len() as int) =~= inputv);
        assert(r.deep_view() =~= cluster_info_of(
            cluster_name@,
            description.deep_view(),
            inputv,
        ));
    }
    r
}

/// Spec-level value of one namespace scan outcome.
pub open spec fn scan_result_deep(r: Result<Vec<IngressObject>, Error>) -> Result<
    Seq<IngressObjectV>,
    ErrorV,
> {
    match r {
        Ok(v) => Ok(v.deep_view()),
        Err(e) => Err(e.deep_view()),
    }
}

/// Spec-level value of a list of scan outcomes.
pub open spec fn scans_deep(s: Seq<Result<Vec<IngressObject>, Error>>) -> Seq<
    Result<Seq<IngressObjectV>, ErrorV>,
> {
    s.map_values(|r: Result<Vec<IngressObject>, Error>| scan_result_deep(r))
}

/// The first scan error of the list, if any: one failing namespace aborts
/// the whole cluster's aggregation.
pub open spec fn scan_error(scans: Seq<Result<Seq<IngressObjectV>, ErrorV>>) -> Option<ErrorV>
    decreases scans.len(),
{
    if scans.len() == 0 {
        None
    } else {
        match scans[0] {
            Err(e) => Some(e),
            Ok(_) => scan_error(scans.drop_first()),
        }
    }
}

/// All listed objects of the outcomes, concatenated in scan order;
/// meaningful once no outcome failed.
pub open spec fn scanned_objects(scans: Seq<Result<Seq<IngressObjectV>, ErrorV>>) -> Seq<
    IngressObjectV,
>
    decreases scans.len(),
{
    if scans.len() == 0 {
        Seq::empty()
    } else {
        scanned_objects(scans.drop_last()) + match scans.last() {
            Ok(v) => v,
            Err(_) => Seq::empty(),
        }
    }
}

/// One cluster's aggregation result: the first scan error, or the cluster
/// entry over the records of every listed object.
pub open spec fn cluster_outcome(
    name: Seq<char>,
    description: Option<Seq<char>>,
    scans: Seq<Result<Seq<IngressObjectV>, ErrorV>>,
    only_with_annotation: bool,
) -> Result<ClusterInfoV, ErrorV> {
    match scan_error(scans) {
        Some(e) => Err(e),
        None => Ok(
            cluster_info_of(
                name,
                description,
                records_of_objects(scanned_objects(scans), only_with_annotation),
            ),
        ),
    }
}

proof fn lemma_scan_error_skip(scans: Seq<Result<Seq<IngressObjectV>, ErrorV>>, i: int)
    requires
        0 <= i <= scans.len(),
        forall|k: int| 0 <= k < i ==> scans[k] is Ok,
    ensures
        scan_error(scans) == scan_error(scans.skip(i)),
    decreases i,
{
    if i > 0 {
        assert(scans[0] is Ok);
        lemma_scan_error_skip(scans.drop_first(), i - 1);
        assert(scans.drop_first() =~= scans.skip(1));
        assert(scans.skip(1).skip(i - 1) =~= scans.skip(i));
    } else {
        assert(scans.skip(0) =~= scans);
    }
}

/// Combines the per-namespace scan outcomes of one cluster: the first
/// failing scan aborts with its error; otherwise every batch's records are
/// concatenated in scan order and mapped into the cluster entry.
pub fn aggregate_cluster(
    cluster_name: String,
    description: &Option<String>,
    scans: &Vec<Result<Vec<IngressObject>, Error>>,
    only_with_annotation: bool,
) -> (r: Result<ClusterInfo, Error>)
    ensures
        r matches Ok(c) ==> cluster_outcome(
            cluster_name@,
            description.deep_view(),
            scans_deep(scans@),
            only_with_annotation,
        ) == Ok::<ClusterInfoV, ErrorV>(c.deep_view()),
        r matches Err(e) ==> cluster_outcome(
            cluster_name@,
            description.deep_view(),
            scans_deep(scans@),
            only_with_annotation,
        ) == Err::<ClusterInfoV, ErrorV>(e.deep_view()),
{
    let ghost scansd = scans_deep(scans@);
    let mut collected: Vec<IngressSpec> = Vec::new();
    for i in 0..scans.len()
        invariant
            scansd == scans_deep(scans@),
            i <= scans@.len(),
            forall|k: int| 0 <= k < i ==> scansd[k] is Ok,
            collected.deep_view() =~= records_of_objects(
                scanned_objects(scansd.take(i as int)),
                only_with_annotation,
            ),
    {
        match &scans[i] {
            Err(e) => {
                proof {
                    lemma_scan_error_skip(scansd, i as int);
                    assert(scansd.skip(i as int)[0] == scansd[i as int]);
                }
                return Err(e.dup());
            },
            Ok(objs) => {
                let mut recs = collect_ingresses(only_with_annotation, objs);
                let ghost prior = collected.deep_view();
                let ghost recsd = recs.deep_view();
                collected.append(&mut recs);
                proof {
                    assert(collected.deep_view() =~= prior + recsd);
                    assert(scansd.take(i + 1).drop_last() =~= scansd.take(i as int));
                    assert(scansd.take(i + 1).last() == scansd[i as int]);
                    lemma_records_concat(
                        scanned_objects(scansd.take(i as int)),
                        objs.deep_view(),
                        only_with_annotation,
                    );
                }
            },
        }
    }
    proof {
        lemma_scan_error_skip(scansd, scans@.len() as int);
        assert(scansd.skip(scans@.len() as int) =~= Seq::<
            Result<Seq<IngressObjectV>, ErrorV>,
        >::empty());
        assert(scansd.take(scans@.len() as int) =~= scansd);
    }
    Ok(transform_to_info(cluster_name, description, collected))
}

/// Spec-level value of a [`RemoteOutcome`].
#[verifier::ext_equal]
pub ghost enum RemoteOutcomeV {
    Unreachable(ErrorV),
    Scanned(Seq<Result<Seq<IngressObjectV>, ErrorV>>),
}

/// What the caller gathered for one remote cluster: either credential
/// resolution or client construction failed, or the cluster was scanned,
/// one outcome per configured namespace (or a single cluster-wide one).
#[derive(Debug)]
pub enum RemoteOutcome {
    Unreachable(Error),
    Scanned(Vec<Result<Vec<IngressObject>, Error>>),
}

impl DeepView for RemoteOutcome {
    type V = RemoteOutcomeV;

    open spec fn deep_view(&self) -> RemoteOutcomeV {
        match self {
            RemoteOutcome::Unreachable(e) => RemoteOutcomeV::Unreachable(e.deep_view()),
            RemoteOutcome::Scanned(v) => RemoteOutcomeV::Scanned(scans_deep(v@)),
        }
    }
}

/// The cluster entry a remote cluster contributes, if any: nothing when it
/// was unreachable or its aggregation failed.
pub open spec fn remote_cluster_entry(
    c: RemoteClusterV,
    o: RemoteOutcomeV,
    only_with_annotation: bool,
) -> Option<ClusterInfoV> {
    match o {
        RemoteOutcomeV::Unreachable(_) => None,
        RemoteOutcomeV::Scanned(scans) => match cluster_outcome(
            c.name,
            c.description,
            scans,
            only_with_annotation,
        ) {
            Ok(ci) => Some(ci),
            Err(_) => None,
        },
    }
}

/// The surviving cluster entries of one group, in configuration order.
pub open spec fn group_clusters_spec(
    cs: Seq<RemoteClusterV>,
    os: Seq<RemoteOutcomeV>,
    only_with_annotation: bool,
) -> Seq<ClusterInfoV>
    decreases cs.len(),
{
    if cs.len() == 0 || os.len() == 0 {
        Seq::empty()
    } else {
        group_clusters_spec(cs.drop_last(), os.drop_last(), only_with_annotation) + match
            remote_cluster_entry(cs.last(), os.last(), only_with_annotation) {
            Some(ci) => seq![ci],
            None => Seq::empty(),
        }
    }
}

/// The group entries of every configured remote group, in configuration
/// order: a group stays even when some or all of its clusters failed.
pub open spec fn remote_groups_spec(
    gs: Seq<RemoteGroupV>,
    outs: Seq<Seq<RemoteOutcomeV>>,
    only_with_annotation: bool,
) -> Seq<GroupInfoV>
    decreases gs.len(),
{
    if gs.len() == 0 || outs.len() == 0 {
        Seq::empty()
    } else {
        remote_groups_spec(gs.drop_last(), outs.drop_last(), only_with_annotation) + seq![
            GroupInfoV {
                name: gs.last().name,
                clusters: group_clusters_spec(gs.last().clusters, outs.last(), only_with_annotation),
            },
        ]
    }
}

/// The configured remote groups, empty when the section is absent.
pub open spec fn spec_remote_groups(c: ConfigV) -> Seq<RemoteGroupV> {
    match c.remote {
        Some(gs) => gs,
        None => Seq::empty(),
    }
}

/// The one-cluster group the local cluster forms.
pub open spec fn local_group_of(ci: ClusterInfoV) -> GroupInfoV {
    GroupInfoV { name: "local"@, clusters: seq![ci] }
}

/// Spec-level value of the optional local scan outcomes.
pub open spec fn local_scans_deep(o: Option<Vec<Result<Vec<IngressObject>, Error>>>) -> Option<
    Seq<Result<Seq<IngressObjectV>, ErrorV>>,
> {
    match o {
        Some(v) => Some(scans_deep(v@)),
        None => None,
    }
}

/// The full snapshot: the local cluster's own group first (when the local
/// cluster is active; its failure aborts the build), then one group per
/// configured remote group with its surviving clusters.
pub open spec fn snapshot_spec(
    c: ConfigV,
    local_scans: Option<Seq<Result<Seq<IngressObjectV>, ErrorV>>>,
    remote_scans: Seq<Seq<RemoteOutcomeV>>,
) -> Result<Seq<GroupInfoV>, ErrorV> {
    let only = spec_only_with_annotation(c);
    let remote_part = remote_groups_spec(spec_remote_groups(c), remote_scans, only);
    match local_scans {
        None => Ok(remote_part),
        Some(scans) => match cluster_outcome("local"@, c.local->0.description, scans, only) {
            Err(e) => Err(e),
            Ok(ci) => Ok(seq![local_group_of(ci)] + remote_part),
        },
    }
}

/// Builds the snapshot from the caller's gathered outcomes. The shape of
/// the outcomes must follow the configuration: local outcomes are present
/// exactly when the local cluster is active, and the remote outcomes hold
/// one list per configured group, one entry per cluster of that group.
pub fn collect_for_all_clusters(
    config: &Config,
    local_scans: &Option<Vec<Result<Vec<IngressObject>, Error>>>,
    remote_scans: &Vec<Vec<RemoteOutcome>>,
) -> (r: Result<Vec<GroupInfo>, Error>)
    requires
        local_scans is Some <==> spec_local_active(config.deep_view()),
        remote_scans.deep_view().len() == spec_remote_groups(config.deep_view()).len(),
        forall|g: int|
            0 <= g < remote_scans.deep_view().len() ==> #[trigger] remote_scans.deep_view()[g].len()
                == spec_remote_groups(config.deep_view())[g].clusters.len(),
    ensures
        r matches Ok(s) ==> snapshot_spec(
            config.deep_view(),
            local_scans_deep(*local_scans),
            remote_scans.deep_view(),
        ) == Ok::<Seq<GroupInfoV>, ErrorV>(s.deep_view()),
        r matches Err(e) ==> snapshot_spec(
            config.deep_view(),
            local_scans_deep(*local_scans),
            remote_scans.deep_view(),
        ) == Err::<Seq<GroupInfoV>, ErrorV>(e.deep_view()),
{
    let only = config.only_with_annotation();
    let mut result: Vec<GroupInfo> = Vec::new();
    match local_scans {
        None => {},
        Some(scans) => {
            match &config.local {
                None => {
                    proof {
                        assert(false);
                    }
                },
                Some(local) => {
                    match aggregate_cluster("local".to_owned(), &local.description, scans, only) {
                        Err(e) => {
                            return Err(e);
                        },
                        Ok(ci) => {
                            let ghost civ = ci.deep_view();
                            let mut local_clusters: Vec<ClusterInfo> = Vec::new();
                            local_clusters.push(ci);
                            let entry = GroupInfo {
                                name: "local".to_owned(),
                                clusters: local_clusters,
                            };
                            proof {
                                assert(entry.clusters.deep_view() =~= seq![civ]);
                                assert(entry.deep_view() =~= local_group_of(civ));
                            }
                            result.push(entry);
                            proof {
                                assert(result.deep_view() =~= seq![local_group_of(civ)]);
                            }
                        },
                    }
                },
            }
        },
    }
    let ghost base = result.deep_view();
    let ghost groupsv = spec_remote_groups(config.deep_view());
    let ghost outsv = remote_scans.deep_view();
    match &config.remote {
        None => {},
        Some(groups) => {
            for g in 0..groups.len()
                invariant
                    groupsv == spec_remote_groups(config.deep_view()),
                    groupsv == groups.deep_view(),
                    outsv == remote_scans.deep_view(),
                    outsv.len() == groupsv.len(),
                    forall|k: int|
                        0 <= k < outsv.len() ==> #[trigger] outsv[k].len()
                            == groupsv[k].clusters.len(),
                    g <= groups@.len(),
                    only == spec_only_with_annotation(config.deep_view()),
                    result.deep_view() =~= base + remote_groups_spec(
                        groupsv.take(g as int),
                        outsv.take(g as int),
                        only,
                    ),
            {
                let group = &groups[g];
                let outcomes = &remote_scans[g];
                let ghost clustersv = group.deep_view().clusters;
                let ghost outcomesv = outcomes.deep_view();
                proof {
                    assert(outcomesv == outsv[g as int]);
                    assert(clustersv == groupsv[g as int].clusters);
                }
                let mut group_clusters: Vec<ClusterInfo> = Vec::new();
                for j in 0..group.clusters.len()
                    invariant
                        clustersv == group.deep_view().clusters,
                        outcomesv == outcomes.deep_view(),
                        outcomesv.len() == clustersv.len(),
                        j <= group.clusters@.len(),
                        group_clusters.deep_view() =~= group_clusters_spec(
                            clustersv.take(j as int),
                            outcomesv.take(j as int),
                            only,
                        ),
                {
                    let cluster = &group.clusters[j];
                    match &outcomes[j] {
                        RemoteOutcome::Unreachable(_) => {},
                        RemoteOutcome::Scanned(scans) => {
                            match aggregate_cluster(
                                cluster.name.clone(),
                                &cluster.description,
                                scans,
                                only,
                            ) {
                                Ok(ci) => {
                                    let ghost prior = group_clusters.deep_view();
                                    let ghost civ = ci.deep_view();
                                    group_clusters.push(ci);
                                    proof {
                                        assert(group_clusters.deep_view() =~= prior.push(civ));
                                    }
                                },
                                Err(_) => {},
                            }
                        },
                    }
                    proof {
                        assert(clustersv.take(j + 1).drop_last() =~= clustersv.take(j as int));
                        assert(outcomesv.take(j + 1).drop_last() =~= outcomesv.take(j as int));
                        assert(clustersv.take(j + 1).last() == clustersv[j as int]);
                        assert(outcomesv.take(j + 1).last() == outcomesv[j as int]);
                        assert(group_clusters.deep_view() =~= group_clusters_spec(
                            clustersv.take(j + 1),
                            outcomesv.take(j + 1),
                            only,
                        ));
                    }
                }
                let ghost prior = result.deep_view();
                let entry = GroupInfo { name: group.name.clone(), clusters: group_clusters };
                let ghost entryv = entry.deep_view();
                result.push(entry);
                proof {
                    assert(clustersv.take(group.clusters@.len() as int) =~= clustersv);
                    assert(outcomesv.take(outcomesv.len() as int) =~= outcomesv);
                    assert(entryv =~= GroupInfoV {
                        name: groupsv[g as int].name,
                        clusters: group_clusters_spec(groupsv[g as int].clusters, outsv[g as int], only),
                    });
                    assert(result.deep_view() =~= prior.push(entryv));
                    assert(groupsv.take(g + 1).drop_last() =~= groupsv.take(g as int));
                    assert(outsv.take(g + 1).drop_last() =~= outsv.take(g as int));
                    assert(groupsv.take(g + 1).last() == groupsv[g as int]);
                    assert(outsv.take(g + 1).last() == outsv[g as int]);
                    assert(result.deep_view() =~= base + remote_groups_spec(
                        groupsv.take(g + 1),
                        outsv.take(g + 1),
                        only,
                    ));
                }
            }
            proof {
                assert(groupsv.take(groups@.len() as int) =~= groupsv);
                assert(outsv.take(groups@.len() as int) =~= outsv);
            }
        },
    }
    proof {
        if config.deep_view().remote is None {
            assert(remote_groups_spec(groupsv, outsv, only) =~= Seq::<GroupInfoV>::empty());
            assert(result.deep_view() =~= base + remote_groups_spec(groupsv, outsv, only));
        }
    }
    Ok(result)
}

/// Empty-configuration law: with the local cluster inactive and no remote
/// groups configured, the snapshot is the empty group list.
pub proof fn lemma_empty_config_snapshot(c: ConfigV, remote_scans: Seq<Seq<RemoteOutcomeV>>)
    requires
        !spec_local_active(c),
        spec_remote_groups(c).len() == 0,
        remote_scans.len() == 0,
    ensures
        snapshot_spec(c, None, remote_scans) == Ok::<Seq<GroupInfoV>, ErrorV>(Seq::empty()),
{
}

/// Idempotence law: the snapshot is a function of the configuration and the
/// gathered outcomes alone, so two builds over unchanged backing state give
/// structurally equal snapshots.
pub proof fn lemma_builder_idempotent(
    c1: ConfigV,
    l1: Option<Seq<Result<Seq<IngressObjectV>, ErrorV>>>,
    r1: Seq<Seq<RemoteOutcomeV>>,
    c2: ConfigV,
    l2: Option<Seq<Result<Seq<IngressObjectV>, ErrorV>>>,
    r2: Seq<Seq<RemoteOutcomeV>>,
)
    requires
        c1 == c2,
        l1 == l2,
        r1 == r2,
    ensures
        snapshot_spec(c1, l1, r1) == snapshot_spec(c2, l2, r2),
{
}

/// Failure isolation law: in a group of two clusters whose second cluster
/// failed (unreachable, or a failing scan), the group keeps exactly the
/// first cluster's entry, and no error escapes the group assembly.
pub proof fn lemma_failure_isolation(
    cs: Seq<RemoteClusterV>,
    os: Seq<RemoteOutcomeV>,
    only_with_annotation: bool,
)
    requires
        cs.len() == 2,
        os.len() == 2,
        remote_cluster_entry(cs[0], os[0], only_with_annotation) is Some,
        remote_cluster_entry(cs[1], os[1], only_with_annotation) is None,
    ensures
        group_clusters_spec(cs, os, only_with_annotation) == seq![
            remote_cluster_entry(cs[0], os[0], only_with_annotation)->0,
        ],
{
    let head_cs = cs.drop_last();
    let head_os = os.drop_last();
    assert(cs.last() == cs[1]);
    assert(os.last() == os[1]);
    assert(head_cs.last() == cs[0]);
    assert(head_os.last() == os[0]);
    assert(head_cs.len() == 1);
    assert(group_clusters_spec(head_cs.drop_last(), head_os.drop_last(), only_with_annotation)
        == Seq::<ClusterInfoV>::empty());
    assert(group_clusters_spec(head_cs, head_os, only_with_annotation) =~= seq![
        remote_cluster_entry(cs[0], os[0], only_with_annotation)->0,
    ]);
    assert(group_clusters_spec(cs, os, only_with_annotation) =~= seq![
        remote_cluster_entry(cs[0], os[0], only_with_annotation)->0,
    ]);
}

/// One refresh decision: a successful build replaces the published
/// snapshot; a failed one keeps the previous snapshot unchanged.
pub fn refresh_step(current: Vec<GroupInfo>, outcome: Result<Vec<GroupInfo>, Error>) -> (r: Vec<
    GroupInfo,
>)
    ensures
        outcome matches Ok(s) ==> r == s,
        outcome matches Err(_) ==> r == current,
{
    match outcome {
        Ok(fresh) => fresh,
        Err(_) => current,
    }
}

} // verus!
