//! The cross-table guarantees a well-formed snapshot gives its readers,
//! each proved from the construction invariants: the reverse map link, the
//! two denormalization chains, and the per-sample aggregates.

use vstd::prelude::*;

use crate::common::SensorChannel;
use crate::domain::{MapRecord, SampleAnnotation, SampleData};
use crate::nusc::Tables;
use crate::resolve::{ann_tokens, channel_slot, log_map_token};
use crate::table::{has_token, lemma_lookup_some_iff_has, lemma_lookup_token, lookup_rows,
    AsRefToken};
use crate::token::Token;

verus! {

/// Point lookup: a found record carries exactly the token it was looked up
/// by, and a lookup finds a record exactly when some row carries the token.
pub proof fn lemma_lookup_finds_token<T: AsRefToken>(rows: Seq<T>, t: Token)
    ensures
        lookup_rows(rows, t) matches Some(rec) ==> rec.spec_token() == t,
        lookup_rows(rows, t) is Some <==> has_token(rows, t),
{
    lemma_lookup_token(rows, t);
    lemma_lookup_some_iff_has(rows, t);
}

/// When one map lists a log token and no later map does, the reverse link
/// resolves to that map.
proof fn lemma_log_map_token_unique(maps: Seq<MapRecord>, mi: int, lt: Token)
    requires
        0 <= mi < maps.len(),
        maps[mi].log_tokens@.contains(lt),
        forall|mj: int| mi < mj < maps.len() ==> !(#[trigger] maps[mj]).log_tokens@.contains(lt),
    ensures
        log_map_token(maps, lt) == Some(maps[mi].token),
    decreases maps.len(),
{
    if mi == maps.len() - 1 {
        assert(maps.last() == maps[mi]);
    } else {
        assert(!maps[maps.len() - 1].log_tokens@.contains(lt));
        assert(maps.drop_last()[mi] == maps[mi]);
        lemma_log_map_token_unique(maps.drop_last(), mi, lt);
    }
}

/// Reverse map-to-log link: when exactly one map lists a log token, every
/// log carrying that token points back at that map.
pub proof fn lemma_map_to_log_link(t: Tables, mi: int, li: int, i: int)
    requires
        t.wf(),
        0 <= mi < t.map.rows().len(),
        0 <= li < t.map.rows()[mi].log_tokens@.len(),
        0 <= i < t.log.rows().len(),
        t.log.rows()[i].token == t.map.rows()[mi].log_tokens@[li],
        forall|mj: int|
            0 <= mj < t.map.rows().len() && mj != mi ==> !(
            #[trigger] t.map.rows()[mj]).log_tokens@.contains(t.map.rows()[mi].log_tokens@[li]),
    ensures
        t.log.rows()[i].map_token == t.map.rows()[mi].token,
{
    let lt = t.map.rows()[mi].log_tokens@[li];
    lemma_log_map_token_unique(t.map.rows(), mi, lt);
    assert(log_map_token(t.map.rows(), t.log.rows()[i].token) == Some(
        t.log.rows()[i].map_token,
    ));
}

/// Sensor resolution: every capture's modality and channel equal those of
/// the sensor reached through its calibrated sensor.
pub proof fn lemma_capture_modality_channel(t: Tables, i: int)
    requires
        t.wf(),
        0 <= i < t.sample_data.rows().len(),
    ensures
        ({
            let d = t.sample_data.rows()[i];
            let cal = lookup_rows(t.calib.rows(), d.calibrated_sensor_token);
            &&& cal is Some
            &&& lookup_rows(t.sensor.rows(), cal->Some_0.sensor_token) is Some
            &&& d.modality == lookup_rows(
                t.sensor.rows(),
                cal->Some_0.sensor_token,
            )->Some_0.modality
            &&& d.channel == lookup_rows(
                t.sensor.rows(),
                cal->Some_0.sensor_token,
            )->Some_0.channel
        }),
{
    assert(t.captures_resolved());
    assert(0 <= i < t.sample_data.rows().len());
    let d = t.sample_data.rows()[i];
    assert(crate::nusc::capture_link(t.calib.rows(), t.sensor.rows(), d) is Some);
}

/// Taxonomy resolution: every annotation's cached category name equals the
/// name of the category reached through its instance.
pub proof fn lemma_annotation_category_name(t: Tables, i: int)
    requires
        t.wf(),
        0 <= i < t.sample_ann.rows().len(),
    ensures
        ({
            let a = t.sample_ann.rows()[i];
            let ins = lookup_rows(t.instance.rows(), a.instance_token);
            &&& ins is Some
            &&& lookup_rows(t.category.rows(), ins->Some_0.category_token) is Some
            &&& a.category_name@ == lookup_rows(
                t.category.rows(),
                ins->Some_0.category_token,
            )->Some_0.name@
        }),
{
    assert(t.annotations_resolved());
    let a = t.sample_ann.rows()[i];
    assert(crate::nusc::record_annotation_link(t.instance.rows(), t.category.rows(), a) is Some);
}

/// When exactly one capture carries a sample and channel, the slot holds
/// that capture's token.
proof fn lemma_channel_slot_unique(sds: Seq<SampleData>, s: Token, c: SensorChannel, j: int)
    requires
        0 <= j < sds.len(),
        sds[j].sample_token == s,
        sds[j].channel == c,
        forall|k: int|
            0 <= k < sds.len() && k != j ==> !((#[trigger] sds[k]).sample_token == s && sds[k].channel
                == c),
    ensures
        channel_slot(sds, s, c) == sds[j].token,
    decreases sds.len(),
{
    if j == sds.len() - 1 {
        assert(sds.last() == sds[j]);
    } else {
        assert(!(sds[sds.len() - 1].sample_token == s && sds[sds.len() - 1].channel == c));
        assert(sds.drop_last()[j] == sds[j]);
        lemma_channel_slot_unique(sds.drop_last(), s, c, j);
    }
}

/// Per-channel slot: when exactly one capture row carries a sample's token
/// and a channel, the sample's slot for that channel is that row's token.
pub proof fn lemma_unique_channel_slot(t: Tables, i: int, j: int, c: SensorChannel)
    requires
        t.wf(),
        0 <= i < t.sample.rows().len(),
        0 <= j < t.sample_data.rows().len(),
        t.sample_data.rows()[j].sample_token == t.sample.rows()[i].token,
        t.sample_data.rows()[j].channel == c,
        forall|k: int|
            0 <= k < t.sample_data.rows().len() && k != j ==> !((
            #[trigger] t.sample_data.rows()[k]).sample_token == t.sample.rows()[i].token
                && t.sample_data.rows()[k].channel == c),
    ensures
        t.sample.rows()[i].data.spec_get(c) == t.sample_data.rows()[j].token,
{
    lemma_channel_slot_unique(t.sample_data.rows(), t.sample.rows()[i].token, c, j);
    assert(t.samples_aggregated());
}

/// A token is in a sample's annotation list exactly when some annotation
/// row carries the sample's token and that token.
proof fn lemma_ann_tokens_members(rows: Seq<SampleAnnotation>, s: Token, tok: Token)
    ensures
        ann_tokens(rows, s).contains(tok) <==> exists|k: int|
            0 <= k < rows.len() && (#[trigger] rows[k]).sample_token == s && rows[k].token == tok,
    decreases rows.len(),
{
    if rows.len() == 0 {
        assert(!ann_tokens(rows, s).contains(tok));
    } else {
        let prev = rows.drop_last();
        lemma_ann_tokens_members(prev, s, tok);
        let last = rows.last();
        if last.sample_token == s {
            assert(ann_tokens(rows, s) == ann_tokens(prev, s).push(last.token));
            if ann_tokens(rows, s).contains(tok) {
                let w = choose|w: int|
                    0 <= w < ann_tokens(rows, s).len() && #[trigger] ann_tokens(rows, s)[w] == tok;
                if w < ann_tokens(prev, s).len() {
                    assert(ann_tokens(prev, s)[w] == tok);
                    let k = choose|k: int|
                        0 <= k < prev.len() && (#[trigger] prev[k]).sample_token == s
                            && prev[k].token == tok;
                    assert(rows[k].sample_token == s && rows[k].token == tok);
                } else {
                    assert(tok == last.token);
                    assert(rows[rows.len() - 1].sample_token == s && rows[rows.len() - 1].token
                        == tok);
                }
            }
            if exists|k: int|
                0 <= k < rows.len() && (#[trigger] rows[k]).sample_token == s && rows[k].token
                    == tok {
                let k = choose|k: int|
                    0 <= k < rows.len() && (#[trigger] rows[k]).sample_token == s && rows[k].token
                        == tok;
                if k < rows.len() - 1 {
                    assert(prev[k].sample_token == s && prev[k].token == tok);
                    assert(ann_tokens(prev, s).contains(tok));
                    let w = choose|w: int|
                        0 <= w < ann_tokens(prev, s).len() && #[trigger] ann_tokens(prev, s)[w]
                            == tok;
                    assert(ann_tokens(rows, s)[w] == tok);
                } else {
                    assert(ann_tokens(rows, s).last() == tok);
                }
            }
        } else {
            assert(ann_tokens(rows, s) == ann_tokens(prev, s));
            if exists|k: int|
                0 <= k < rows.len() && (#[trigger] rows[k]).sample_token == s && rows[k].token
                    == tok {
                let k = choose|k: int|
                    0 <= k < rows.len() && (#[trigger] rows[k]).sample_token == s && rows[k].token
                        == tok;
                assert(k < rows.len() - 1);
                assert(prev[k].sample_token == s && prev[k].token == tok);
            }
            if ann_tokens(prev, s).contains(tok) {
                let k = choose|k: int|
                    0 <= k < prev.len() && (#[trigger] prev[k]).sample_token == s && prev[k].token
                        == tok;
                assert(rows[k].sample_token == s && rows[k].token == tok);
            }
        }
    }
}

/// Annotation set: the set of tokens in a sample's annotation list is
/// exactly the set of tokens of the annotation rows carrying the sample.
pub proof fn lemma_sample_annotation_set(t: Tables, i: int)
    requires
        t.wf(),
        0 <= i < t.sample.rows().len(),
    ensures
        t.sample.rows()[i].anns@.to_set() == Set::new(
            |tok: Token|
                exists|k: int|
                    0 <= k < t.sample_ann.rows().len() && (
                    #[trigger] t.sample_ann.rows()[k]).sample_token == t.sample.rows()[i].token
                        && t.sample_ann.rows()[k].token == tok,
        ),
{
    assert(t.samples_aggregated());
    let s = t.sample.rows()[i].token;
    assert(t.sample.rows()[i].anns@ == ann_tokens(t.sample_ann.rows(), s));
    assert forall|tok: Token| #[trigger] ann_tokens(t.sample_ann.rows(), s).contains(tok)
        <==> exists|k: int|
        0 <= k < t.sample_ann.rows().len() && (#[trigger] t.sample_ann.rows()[k]).sample_token == s
            && t.sample_ann.rows()[k].token == tok by {
        lemma_ann_tokens_members(t.sample_ann.rows(), s, tok);
    }
    assert(t.sample.rows()[i].anns@.to_set() =~= Set::new(
        |tok: Token|
            exists|k: int|
                0 <= k < t.sample_ann.rows().len() && (
                #[trigger] t.sample_ann.rows()[k]).sample_token == t.sample.rows()[i].token
                    && t.sample_ann.rows()[k].token == tok,
    ));
}

} // verus!
