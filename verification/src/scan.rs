//! Scanning: turns a listed batch of route objects into the ordered flat
//! route records, applying the annotation-based inclusion filter and the
//! object × rule-with-host × path fan-out.

use vstd::prelude::*;

use crate::model::{
    HttpPath, HttpPathV, IngressObject, IngressObjectV, IngressRule, IngressRuleV, IngressSpec,
    IngressSpecV, description_annotation, description_annotation_key, lookup_value,
    name_annotation, name_annotation_key, spec_lookup,
};

verus! {

/// The namespace recorded for an object that carries none.
pub open spec fn default_namespace() -> Seq<char> {
    "default"@
}

/// Whether the annotation filter keeps the object: with the filter off every
/// object passes; with it on, the object must carry at least one of the two
/// recognized annotation keys, so an object without annotations never passes.
pub open spec fn passes_annotation_filter(o: IngressObjectV, only_with_annotation: bool) -> bool {
    !only_with_annotation || match o.annotations {
        Some(ann) => spec_lookup(ann, name_annotation()) is Some || spec_lookup(
            ann,
            description_annotation(),
        ) is Some,
        None => false,
    }
}

/// The record emitted for one path entry of a rule of `o`.
pub open spec fn record_of(o: IngressObjectV, host: Seq<char>, p: HttpPathV) -> IngressSpecV {
    IngressSpecV {
        name: o.name,
        namespace: match o.namespace {
            Some(ns) => ns,
            None => default_namespace(),
        },
        host: host,
        tls_used: true,
        path: p.path,
        annotations: match o.annotations {
            Some(a) => a,
            None => Seq::empty(),
        },
        labels: match o.labels {
            Some(l) => l,
            None => Seq::empty(),
        },
    }
}

/// The records of a path list of one rule: one per path entry, in order.
pub open spec fn records_of_paths(
    o: IngressObjectV,
    host: Seq<char>,
    paths: Seq<HttpPathV>,
) -> Seq<IngressSpecV> {
    paths.map_values(|p: HttpPathV| record_of(o, host, p))
}

/// The records one rule contributes: none without a host or without an HTTP
/// block, else one per path entry, in path order.
pub open spec fn records_of_rule(o: IngressObjectV, r: IngressRuleV) -> Seq<IngressSpecV> {
    match r.host {
        None => Seq::empty(),
        Some(host) => match r.http {
            None => Seq::empty(),
            Some(http) => records_of_paths(o, host, http.paths),
        },
    }
}

/// The records of a rule list, in rule order.
pub open spec fn records_of_rules(o: IngressObjectV, rules: Seq<IngressRuleV>) -> Seq<IngressSpecV>
    decreases rules.len(),
{
    if rules.len() == 0 {
        Seq::empty()
    } else {
        records_of_rules(o, rules.drop_last()) + records_of_rule(o, rules.last())
    }
}

/// The records one object contributes: none when the annotation filter
/// discards it or it has no routing specification, else its rules' records.
pub open spec fn records_of_object(o: IngressObjectV, only_with_annotation: bool) -> Seq<
    IngressSpecV,
> {
    if !passes_annotation_filter(o, only_with_annotation) {
        Seq::empty()
    } else {
        match o.spec {
            None => Seq::empty(),
            Some(routing) => match routing.rules {
                None => Seq::empty(),
                Some(rules) => records_of_rules(o, rules),
            },
        }
    }
}

/// The records of a whole listed batch, in object order.
pub open spec fn records_of_objects(
    objects: Seq<IngressObjectV>,
    only_with_annotation: bool,
) -> Seq<IngressSpecV>
    decreases objects.len(),
{
    if objects.len() == 0 {
        Seq::empty()
    } else {
        records_of_objects(objects.drop_last(), only_with_annotation) + records_of_object(
            objects.last(),
            only_with_annotation,
        )
    }
}

/// The records of a concatenated batch are the concatenation of each
/// batch's records: filtering and fan-out act object by object.
pub proof fn lemma_records_concat(
    a: Seq<IngressObjectV>,
    b: Seq<IngressObjectV>,
    only_with_annotation: bool,
)
    ensures
        records_of_objects(a + b, only_with_annotation) == records_of_objects(
            a,
            only_with_annotation,
        ) + records_of_objects(b, only_with_annotation),
    decreases b.len(),
{
    if b.len() == 0 {
        assert(a + b =~= a);
        assert(records_of_objects(a, only_with_annotation) + records_of_objects(
            b,
            only_with_annotation,
        ) =~= records_of_objects(a, only_with_annotation));
    } else {
        lemma_records_concat(a, b.drop_last(), only_with_annotation);
        assert((a + b).drop_last() =~= a + b.drop_last());
        assert((a + b).last() == b.last());
        assert((records_of_objects(a, only_with_annotation) + records_of_objects(
            b.drop_last(),
            only_with_annotation,
        )) + records_of_object(b.last(), only_with_annotation) =~= records_of_objects(
            a,
            only_with_annotation,
        ) + (records_of_objects(b.drop_last(), only_with_annotation) + records_of_object(
            b.last(),
            only_with_annotation,
        )));
    }
}

/// An object without a routing specification contributes no records,
/// whatever the filter says.
pub proof fn lemma_no_spec_no_records(o: IngressObjectV, only_with_annotation: bool)
    requires
        o.spec is None,
    ensures
        records_of_object(o, only_with_annotation) == Seq::<IngressSpecV>::empty(),
{
}

/// A rule without a host contributes no records, regardless of how many
/// path entries its HTTP block holds.
pub proof fn lemma_no_host_no_records(o: IngressObjectV, r: IngressRuleV)
    requires
        r.host is None,
    ensures
        records_of_rule(o, r) == Seq::<IngressSpecV>::empty(),
{
}

/// With the annotation filter on, an object without any annotations is
/// excluded even if it has rules, hosts and paths.
pub proof fn lemma_unannotated_object_excluded(o: IngressObjectV)
    requires
        o.annotations is None,
    ensures
        records_of_object(o, true) == Seq::<IngressSpecV>::empty(),
{
}

/// The path entries a rule accounts for: zero without a host, else the
/// path count of its HTTP block.
pub open spec fn rule_path_count(r: IngressRuleV) -> nat {
    match r.host {
        None => 0,
        Some(_) => match r.http {
            None => 0,
            Some(http) => http.paths.len(),
        },
    }
}

/// The fan-out of a rule list: the sum over its rules-with-host of their
/// path counts.
pub open spec fn fanout_count(rules: Seq<IngressRuleV>) -> nat
    decreases rules.len(),
{
    if rules.len() == 0 {
        0
    } else {
        fanout_count(rules.drop_last()) + rule_path_count(rules.last())
    }
}

proof fn lemma_rules_fanout(o: IngressObjectV, rules: Seq<IngressRuleV>)
    ensures
        records_of_rules(o, rules).len() == fanout_count(rules),
    decreases rules.len(),
{
    if rules.len() > 0 {
        lemma_rules_fanout(o, rules.drop_last());
    }
}

/// Fan-out law: an object that passes the filter and has rules contributes
/// exactly the sum over its rules-with-host of their path counts; any other
/// object contributes zero records.
pub proof fn lemma_fanout(o: IngressObjectV, only_with_annotation: bool)
    ensures
        records_of_object(o, only_with_annotation).len() == if passes_annotation_filter(
            o,
            only_with_annotation,
        ) && o.spec is Some && o.spec->0.rules is Some {
            fanout_count(o.spec->0.rules->0)
        } else {
            0nat
        },
{
    if passes_annotation_filter(o, only_with_annotation) && o.spec is Some
        && o.spec->0.rules is Some {
        lemma_rules_fanout(o, o.spec->0.rules->0);
    }
}

/// Clones an association list of owned string pairs.
fn clone_string_pairs(pairs: &Vec<(String, String)>) -> (r: Vec<(String, String)>)
    ensures
        r.deep_view() == pairs.deep_view(),
{
    let mut out: Vec<(String, String)> = Vec::new();
    for i in 0..pairs.len()
        invariant
            out.deep_view() =~= pairs.deep_view().take(i as int),
    {
        out.push((pairs[i].0.clone(), pairs[i].1.clone()));
        proof {
            assert(pairs.deep_view().take(i + 1) =~= pairs.deep_view().take(i as int).push(
                pairs.deep_view()[i as int],
            ));
        }
    }
    proof {
        assert(pairs.deep_view().take(pairs@.len() as int) =~= pairs.deep_view());
    }
    out
}

/// Builds the record for one path entry of a rule of `o`.
fn make_record(o: &IngressObject, host: &String, p: &HttpPath) -> (r: IngressSpec)
    ensures
        r.deep_view() == record_of(o.deep_view(), host@, p.deep_view()),
{
    let r = IngressSpec {
        name: o.name.clone(),
        namespace: match &o.namespace {
            Some(ns) => ns.clone(),
            None => "default".to_owned(),
        },
        host: host.clone(),
        tls_used: true,
        path: match &p.path {
            Some(s) => Some(s.clone()),
            None => None,
        },
        annotations: match &o.annotations {
            Some(a) => clone_string_pairs(a),
            None => Vec::new(),
        },
        labels: match &o.labels {
            Some(l) => clone_string_pairs(l),
            None => Vec::new(),
        },
    };
    proof {
        assert(r.deep_view() =~= record_of(o.deep_view(), host@, p.deep_view()));
    }
    r
}

/// Appends the records of one rule of `o` to `out`.
fn emit_rule_records(o: &IngressObject, rule: &IngressRule, out: &mut Vec<IngressSpec>)
    ensures
        final(out).deep_view() == old(out).deep_view() + records_of_rule(
            o.deep_view(),
            rule.deep_view(),
        ),
{
    let ghost base = old(out).deep_view();
    match &rule.host {
        None => {
            proof {
                assert(base + Seq::<IngressSpecV>::empty() =~= base);
            }
        },
        Some(host) => {
            match &rule.http {
                None => {
                    proof {
                        assert(base + Seq::<IngressSpecV>::empty() =~= base);
                    }
                },
                Some(http) => {
                    let ghost ov = o.deep_view();
                    let ghost hostv = host@;
                    let ghost pathsv = http.paths.deep_view();
                    for j in 0..http.paths.len()
                        invariant
                            ov == o.deep_view(),
                            hostv == host@,
                            pathsv == http.paths.deep_view(),
                            j <= http.paths@.len(),
                            out.deep_view() =~= base + records_of_paths(
                                ov,
                                hostv,
                                pathsv.take(j as int),
                            ),
                    {
                        let rec = make_record(o, host, &http.paths[j]);
                        let ghost prior = out.deep_view();
                        let ghost recv = rec.deep_view();
                        out.push(rec);
                        proof {
                            assert(out.deep_view() =~= prior.push(recv));
                            assert(records_of_paths(ov, hostv, pathsv.take(j + 1))
                                =~= records_of_paths(ov, hostv, pathsv.take(j as int)).push(
                                record_of(ov, hostv, pathsv[j as int]),
                            ));
                        }
                    }
                    proof {
                        assert(pathsv.take(http.paths@.len() as int) =~= pathsv);
                    }
                },
            }
        },
    }
}

/// Appends the records of one object to `out`: nothing when the filter
/// discards it or it has no routing specification.
fn emit_object_records(only_with_annotation: bool, o: &IngressObject, out: &mut Vec<IngressSpec>)
    ensures
        final(out).deep_view() == old(out).deep_view() + records_of_object(
            o.deep_view(),
            only_with_annotation,
        ),
{
    let ghost base = old(out).deep_view();
    proof {
        assert(base + Seq::<IngressSpecV>::empty() =~= base);
    }
    if only_with_annotation {
        match &o.annotations {
            None => {
                return ;
            },
            Some(ann) => {
                let has_name = lookup_value(ann, &name_annotation_key()).is_some();
                let has_description = lookup_value(ann, &description_annotation_key()).is_some();
                if !has_name && !has_description {
                    return ;
                }
            },
        }
    }
    match &o.spec {
        None => {},
        Some(routing) => {
            match &routing.rules {
                None => {},
                Some(rules) => {
                    let ghost ov = o.deep_view();
                    let ghost rulesv = rules.deep_view();
                    for k in 0..rules.len()
                        invariant
                            ov == o.deep_view(),
                            rulesv == rules.deep_view(),
                            k <= rules@.len(),
                            out.deep_view() =~= base + records_of_rules(ov, rulesv.take(k as int)),
                    {
                        emit_rule_records(o, &rules[k], out);
                        proof {
                            assert(rulesv.take(k + 1).drop_last() =~= rulesv.take(k as int));
                            assert(rulesv.take(k + 1).last() == rulesv[k as int]);
                        }
                    }
                    proof {
                        assert(rulesv.take(rules@.len() as int) =~= rulesv);
                    }
                },
            }
        },
    }
}

/// Turns one listed batch of route objects into the ordered flat route
/// records, applying the annotation filter and the full fan-out.
pub fn collect_ingresses(only_with_annotation: bool, objects: &Vec<IngressObject>) -> (r: Vec<
    IngressSpec,
>)
    ensures
        r.deep_view() == records_of_objects(objects.deep_view(), only_with_annotation),
{
    let mut result: Vec<IngressSpec> = Vec::new();
    let ghost objectsv = objects.deep_view();
    for i in 0..objects.len()
        invariant
            objectsv == objects.deep_view(),
            i <= objects@.len(),
            result.deep_view() =~= records_of_objects(objectsv.take(i as int), only_with_annotation),
    {
        emit_object_records(only_with_annotation, &objects[i], &mut result);
        proof {
            assert(objectsv.take(i + 1).drop_last() =~= objectsv.take(i as int));
            assert(objectsv.take(i + 1).last() == objectsv[i as int]);
        }
    }
    proof {
        assert(objectsv.take(objects@.len() as int) =~= objectsv);
    }
    result
}

} // verus!
