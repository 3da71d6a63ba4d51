//! The join passes that turn source-shaped rows into denormalized records.
//! They run strictly in dependency order: the reverse map-to-log link, the
//! sensor resolution for captures, the taxonomy resolution for annotations,
//! and last the per-sample aggregation. Each pass either resolves every
//! row or aborts with the reference it could not follow; no partial output
//! is ever returned.

use std::collections::HashMap;
use vstd::prelude::*;

use crate::common::SensorChannel;
use crate::domain::{CalibratedSensor, Category, ChannelSlots, Instance, Log, MapRecord, Sample,
    SampleAnnotation, SampleData, Sensor};
use crate::error::{BuildError, SourceId};
use crate::model::{LogModel, SampleAnnotationModel, SampleDataModel, SampleModel};
use crate::table::{lemma_lookup_some_iff_has, lookup_rows, Table};
use crate::token::Token;

verus! {

broadcast use vstd::std_specs::hash::group_hash_axioms;

/// Moves a vector's elements into reverse order.
pub(crate) fn reversed<T>(v: Vec<T>) -> (r: Vec<T>)
    ensures
        r@ == v@.reverse(),
{
    let ghost orig = v@;
    let mut v = v;
    let mut out: Vec<T> = Vec::new();
    while v.len() > 0
        invariant
            v@ =~= orig.take(v@.len() as int),
            out@.len() + v@.len() == orig.len(),
            forall|j: int| 0 <= j < out@.len() ==> out@[j] == orig[orig.len() - 1 - j],
        decreases v@.len(),
    {
        let x = v.pop().unwrap();
        out.push(x);
    }
    proof {
        assert(out@ =~= orig.reverse());
    }
    out
}

/// The map that owns a log token: the token of the last map whose
/// `log_tokens` lists it, or nothing when no map does.
pub open spec fn log_map_token(maps: Seq<MapRecord>, lt: Token) -> Option<Token>
    decreases maps.len(),
{
    if maps.len() == 0 {
        None
    } else if maps.last().log_tokens@.contains(lt) {
        Some(maps.last().token)
    } else {
        log_map_token(maps.drop_last(), lt)
    }
}

/// What the reverse-link pass makes of one log row.
pub open spec fn resolved_log(m: LogModel, map_token: Token) -> Log {
    Log {
        token: m.token,
        logfile: m.logfile,
        vehicle: m.vehicle,
        location: m.location,
        date_captured: m.date_captured,
        map_token,
    }
}

/// Ownership state while the reverse index is being filled: the maps seen
/// so far, plus the first `j` entries of the current map's log list.
spec fn log_map_token_partial(prefix: Seq<MapRecord>, cur: MapRecord, j: int, lt: Token) -> Option<
    Token,
> {
    if cur.log_tokens@.take(j).contains(lt) {
        Some(cur.token)
    } else {
        log_map_token(prefix, lt)
    }
}

/// Builds the reverse index from every listed log token to its owning map.
fn build_log_to_map(maps: &Table<MapRecord>) -> (m: HashMap<Token, Token>)
    ensures
        forall|lt: Token| m@.contains_key(lt) <==> log_map_token(maps.rows(), lt) is Some,
        forall|lt: Token| m@.contains_key(lt) ==> log_map_token(maps.rows(), lt) == Some(
            #[trigger] m@[lt],
        ),
{
    let mut m: HashMap<Token, Token> = HashMap::new();
    let n = maps.len();
    let mut mi: usize = 0;
    while mi < n
        invariant
            mi <= n,
            n == maps.rows().len(),
            forall|lt: Token| m@.contains_key(lt) <==> log_map_token(
                maps.rows().take(mi as int),
                lt,
            ) is Some,
            forall|lt: Token| m@.contains_key(lt) ==> log_map_token(maps.rows().take(mi as int), lt)
                == Some(#[trigger] m@[lt]),
        decreases n - mi,
    {
        let cur = maps.at(mi);
        let ghost prefix = maps.rows().take(mi as int);
        let ghost curs = maps.rows()[mi as int];
        let k = cur.log_tokens.len();
        let mut j: usize = 0;
        while j < k
            invariant
                j <= k,
                mi < n,
                n == maps.rows().len(),
                k == curs.log_tokens@.len(),
                *cur == curs,
                prefix == maps.rows().take(mi as int),
                forall|lt: Token| m@.contains_key(lt) <==> log_map_token_partial(
                    prefix,
                    curs,
                    j as int,
                    lt,
                ) is Some,
                forall|lt: Token| m@.contains_key(lt) ==> log_map_token_partial(
                    prefix,
                    curs,
                    j as int,
                    lt,
                ) == Some(#[trigger] m@[lt]),
            decreases k - j,
        {
            let lt = cur.log_tokens[j];
            m.insert(lt, cur.token);
            proof {
                assert(curs.log_tokens@.take(j + 1) =~= curs.log_tokens@.take(j as int).push(
                    curs.log_tokens@[j as int],
                ));
                assert forall|t: Token| #[trigger] curs.log_tokens@.take(j + 1).contains(t)
                    <==> (curs.log_tokens@.take(j as int).contains(t) || t == lt) by {
                    if curs.log_tokens@.take(j + 1).contains(t) {
                        let w = choose|w: int|
                            0 <= w < j + 1 && #[trigger] curs.log_tokens@.take(j + 1)[w] == t;
                        if w < j {
                            assert(curs.log_tokens@.take(j as int)[w] == t);
                        }
                    }
                    if curs.log_tokens@.take(j as int).contains(t) {
                        let w = choose|w: int|
                            0 <= w < j && #[trigger] curs.log_tokens@.take(j as int)[w] == t;
                        assert(curs.log_tokens@.take(j + 1)[w] == t);
                    }
                    if t == lt {
                        assert(curs.log_tokens@.take(j + 1)[j as int] == t);
                    }
                }
                assert forall|t: Token| m@.contains_key(t) implies log_map_token_partial(
                    prefix,
                    curs,
                    j + 1,
                    t,
                ) == Some(m@[t]) by {
                    if t != lt {
                        assert(!curs.log_tokens@.take(j + 1).contains(t) ==> log_map_token_partial(
                            prefix,
                            curs,
                            j + 1,
                            t,
                        ) == log_map_token_partial(prefix, curs, j as int, t));
                    }
                }
            }
            j = j + 1;
        }
        proof {
            assert(curs.log_tokens@.take(k as int) =~= curs.log_tokens@);
            let next = maps.rows().take(mi + 1);
            assert(next.drop_last() =~= prefix);
            assert(next.last() == curs);
            assert forall|lt: Token|
                log_map_token(next, lt) == log_map_token_partial(prefix, curs, k as int, lt) by {
                if curs.log_tokens@.contains(lt) {
                    assert(log_map_token(next, lt) == Some(curs.token));
                } else {
                    assert(log_map_token(next, lt) == log_map_token(prefix, lt));
                }
            }
        }
        mi = mi + 1;
    }
    proof {
        assert(maps.rows().take(n as int) =~= maps.rows());
    }
    m
}

/// Reverse-link pass: gives every log its owning map's token. A log that
/// no map lists is an unresolved reference into the map table.
#[verifier::loop_isolation(false)]
pub fn resolve_logs(models: Vec<LogModel>, maps: &Table<MapRecord>) -> (r: Result<
    Vec<Log>,
    BuildError,
>)
    ensures
        match r {
            Ok(out) => {
                &&& out@.len() == models@.len()
                &&& forall|i: int|
                    0 <= i < models@.len() ==> log_map_token(
                        maps.rows(),
                        (#[trigger] models@[i]).token,
                    ) is Some
                &&& forall|i: int|
                    0 <= i < models@.len() ==> #[trigger] out@[i] == resolved_log(
                        models@[i],
                        log_map_token(maps.rows(), models@[i].token)->Some_0,
                    )
            },
            Err(e) => exists|i: int|
                0 <= i < models@.len() && log_map_token(maps.rows(), (#[trigger] models@[i]).token)
                    is None && e == (BuildError::UnresolvedReference {
                    table: SourceId::MapTable,
                    token: models@[i].token,
                }),
        },
{
    let ghost orig = models@;
    let log_to_map = build_log_to_map(maps);
    let mut rev = reversed(models);
    let mut out: Vec<Log> = Vec::new();
    while rev.len() > 0
        invariant
            rev@ =~= orig.reverse().take(rev@.len() as int),
            out@.len() + rev@.len() == orig.len(),
            forall|lt: Token| log_to_map@.contains_key(lt) <==> log_map_token(maps.rows(), lt)
                is Some,
            forall|lt: Token| log_to_map@.contains_key(lt) ==> log_map_token(maps.rows(), lt)
                == Some(#[trigger] log_to_map@[lt]),
            forall|i: int|
                0 <= i < out@.len() ==> log_map_token(maps.rows(), (#[trigger] orig[i]).token)
                    is Some,
            forall|i: int|
                0 <= i < out@.len() ==> #[trigger] out@[i] == resolved_log(
                    orig[i],
                    log_map_token(maps.rows(), orig[i].token)->Some_0,
                ),
        decreases rev@.len(),
    {
        let ghost k = out@.len() as int;
        proof {
            assert(rev@.last() == orig.reverse()[rev@.len() - 1]);
            assert(orig.reverse()[rev@.len() - 1] == orig[k]);
        }
        let model = rev.pop().unwrap();
        match log_to_map.get(&model.token) {
            Some(mt) => {
                let mt = *mt;
                out.push(Log::from_model(mt, model));
            },
            None => {
                proof {
                    assert(model == orig[k]);
                }
                return Err(BuildError::UnresolvedReference {
                    table: SourceId::MapTable,
                    token: model.token,
                });
            },
        }
    }
    Ok(out)
}

/// The sensor a capture row reaches through its calibrated sensor, or
/// nothing when either hop dangles.
pub open spec fn sample_data_link(
    calibs: Seq<CalibratedSensor>,
    sensors: Seq<Sensor>,
    m: SampleDataModel,
) -> Option<Sensor> {
    match lookup_rows(calibs, m.calibrated_sensor_token) {
        None => None,
        Some(cal) => lookup_rows(sensors, cal.sensor_token),
    }
}

/// What the sensor-resolution pass makes of one capture row.
pub open spec fn resolved_sample_data(
    m: SampleDataModel,
    modality: crate::common::SensorModality,
    channel: crate::common::SensorChannel,
) -> SampleData {
    SampleData {
        token: m.token,
        sample_token: m.sample_token,
        ego_pose_token: m.ego_pose_token,
        calibrated_sensor_token: m.calibrated_sensor_token,
        prev: m.prev,
        next: m.next,
        fileformat: m.fileformat,
        filename: m.filename,
        timestamp: m.timestamp,
        is_key_frame: m.is_key_frame,
        height: m.height,
        width: m.width,
        modality,
        channel,
    }
}

/// The exact error the sensor-resolution pass reports for a capture row
/// whose reference chain dangles.
pub open spec fn unresolved_capture_error(
    calibs: Seq<CalibratedSensor>,
    sensors: Seq<Sensor>,
    m: SampleDataModel,
    e: BuildError,
) -> bool {
    match lookup_rows(calibs, m.calibrated_sensor_token) {
        None => e == (BuildError::UnresolvedReference {
            table: SourceId::CalibratedSensor,
            token: m.calibrated_sensor_token,
        }),
        Some(cal) => lookup_rows(sensors, cal.sensor_token) is None && e
            == (BuildError::UnresolvedReference {
            table: SourceId::Sensor,
            token: cal.sensor_token,
        }),
    }
}

/// Sensor-resolution pass: attaches to every capture the modality and
/// channel of the sensor reached through its calibrated sensor.
#[verifier::loop_isolation(false)]
pub fn resolve_sample_data(
    models: Vec<SampleDataModel>,
    calib: &Table<CalibratedSensor>,
    sensors: &Table<Sensor>,
) -> (r: Result<Vec<SampleData>, BuildError>)
    requires
        calib.wf(),
        sensors.wf(),
    ensures
        match r {
            Ok(out) => {
                &&& out@.len() == models@.len()
                &&& forall|i: int|
                    0 <= i < models@.len() ==> sample_data_link(
                        calib.rows(),
                        sensors.rows(),
                        #[trigger] models@[i],
                    ) is Some
                &&& forall|i: int|
                    0 <= i < models@.len() ==> #[trigger] out@[i] == resolved_sample_data(
                        models@[i],
                        sample_data_link(calib.rows(), sensors.rows(), models@[i])->Some_0.modality,
                        sample_data_link(calib.rows(), sensors.rows(), models@[i])->Some_0.channel,
                    )
            },
            Err(e) => exists|i: int|
                0 <= i < models@.len() && unresolved_capture_error(
                    calib.rows(),
                    sensors.rows(),
                    #[trigger] models@[i],
                    e,
                ),
        },
{
    let ghost orig = models@;
    let mut rev = reversed(models);
    let mut out: Vec<SampleData> = Vec::new();
    while rev.len() > 0
        invariant
            calib.wf(),
            sensors.wf(),
            rev@ =~= orig.reverse().take(rev@.len() as int),
            out@.len() + rev@.len() == orig.len(),
            forall|i: int|
                0 <= i < out@.len() ==> sample_data_link(
                    calib.rows(),
                    sensors.rows(),
                    #[trigger] orig[i],
                ) is Some,
            forall|i: int|
                0 <= i < out@.len() ==> #[trigger] out@[i] == resolved_sample_data(
                    orig[i],
                    sample_data_link(calib.rows(), sensors.rows(), orig[i])->Some_0.modality,
                    sample_data_link(calib.rows(), sensors.rows(), orig[i])->Some_0.channel,
                ),
        decreases rev@.len(),
    {
        let ghost k = out@.len() as int;
        proof {
            assert(rev@.last() == orig.reverse()[rev@.len() - 1]);
            assert(orig.reverse()[rev@.len() - 1] == orig[k]);
        }
        let model = rev.pop().unwrap();
        let cal = match calib.get(model.calibrated_sensor_token) {
            Some(c) => c,
            None => {
                proof {
                    lemma_lookup_some_iff_has(calib.rows(), model.calibrated_sensor_token);
                    assert(model == orig[k]);
                }
                return Err(BuildError::UnresolvedReference {
                    table: SourceId::CalibratedSensor,
                    token: model.calibrated_sensor_token,
                });
            },
        };
        let sen = match sensors.get(cal.sensor_token) {
            Some(s) => s,
            None => {
                proof {
                    lemma_lookup_some_iff_has(sensors.rows(), cal.sensor_token);
                    assert(model == orig[k]);
                }
                return Err(BuildError::UnresolvedReference {
                    table: SourceId::Sensor,
                    token: cal.sensor_token,
                });
            },
        };
        let modality = sen.modality;
        let channel = sen.channel;
        out.push(SampleData::from_model(modality, channel, model));
    }
    Ok(out)
}

/// The category an annotation row reaches through its instance, or nothing
/// when either hop dangles.
pub open spec fn annotation_link(
    instances: Seq<Instance>,
    cats: Seq<Category>,
    m: SampleAnnotationModel,
) -> Option<Category> {
    match lookup_rows(instances, m.instance_token) {
        None => None,
        Some(ins) => lookup_rows(cats, ins.category_token),
    }
}

/// The taxonomy pass copies every source field and caches the category
/// name reached through the instance.
pub open spec fn resolved_annotation(
    r: SampleAnnotation,
    m: SampleAnnotationModel,
    category_name: Seq<char>,
) -> bool {
    &&& r.token == m.token
    &&& r.sample_token == m.sample_token
    &&& r.instance_token == m.instance_token
    &&& r.attribute_tokens@ == m.attribute_tokens@
    &&& r.prev == m.prev
    &&& r.next == m.next
    &&& r.visibility == m.visibility
    &&& r.translation == m.translation
    &&& r.rotation == m.rotation
    &&& r.size == m.size
    &&& r.num_lidar_pts == m.num_lidar_pts
    &&& r.num_radar_pts == m.num_radar_pts
    &&& r.category_name@ == category_name
}

/// The exact error the taxonomy pass reports for an annotation row whose
/// reference chain dangles.
pub open spec fn unresolved_annotation_error(
    instances: Seq<Instance>,
    cats: Seq<Category>,
    m: SampleAnnotationModel,
    e: BuildError,
) -> bool {
    match lookup_rows(instances, m.instance_token) {
        None => e == (BuildError::UnresolvedReference {
            table: SourceId::Instance,
            token: m.instance_token,
        }),
        Some(ins) => lookup_rows(cats, ins.category_token) is None && e
            == (BuildError::UnresolvedReference {
            table: SourceId::Category,
            token: ins.category_token,
        }),
    }
}

/// Taxonomy pass: caches on every annotation the name of the category
/// reached through its instance.
#[verifier::loop_isolation(false)]
pub fn resolve_annotations(
    models: Vec<SampleAnnotationModel>,
    instances: &Table<Instance>,
    categories: &Table<Category>,
) -> (r: Result<Vec<SampleAnnotation>, BuildError>)
    requires
        instances.wf(),
        categories.wf(),
    ensures
        match r {
            Ok(out) => {
                &&& out@.len() == models@.len()
                &&& forall|i: int|
                    0 <= i < models@.len() ==> annotation_link(
                        instances.rows(),
                        categories.rows(),
                        #[trigger] models@[i],
                    ) is Some
                &&& forall|i: int|
                    0 <= i < models@.len() ==> resolved_annotation(
                        #[trigger] out@[i],
                        models@[i],
                        annotation_link(
                            instances.rows(),
                            categories.rows(),
                            models@[i],
                        )->Some_0.name@,
                    )
            },
            Err(e) => exists|i: int|
                0 <= i < models@.len() && unresolved_annotation_error(
                    instances.rows(),
                    categories.rows(),
                    #[trigger] models@[i],
                    e,
                ),
        },
{
    let ghost orig = models@;
    let mut rev = reversed(models);
    let mut out: Vec<SampleAnnotation> = Vec::new();
    while rev.len() > 0
        invariant
            instances.wf(),
            categories.wf(),
            rev@ =~= orig.reverse().take(rev@.len() as int),
            out@.len() + rev@.len() == orig.len(),
            forall|i: int|
                0 <= i < out@.len() ==> annotation_link(
                    instances.rows(),
                    categories.rows(),
                    #[trigger] orig[i],
                ) is Some,
            forall|i: int|
                0 <= i < out@.len() ==> resolved_annotation(
                    #[trigger] out@[i],
                    orig[i],
                    annotation_link(instances.rows(), categories.rows(), orig[i])->Some_0.name@,
                ),
        decreases rev@.len(),
    {
        let ghost k = out@.len() as int;
        proof {
            assert(rev@.last() == orig.reverse()[rev@.len() - 1]);
            assert(orig.reverse()[rev@.len() - 1] == orig[k]);
        }
        let model = rev.pop().unwrap();
        let ins = match instances.get(model.instance_token) {
            Some(i) => i,
            None => {
                proof {
                    lemma_lookup_some_iff_has(instances.rows(), model.instance_token);
                    assert(model == orig[k]);
                }
                return Err(BuildError::UnresolvedReference {
                    table: SourceId::Instance,
                    token: model.instance_token,
                });
            },
        };
        let cat = match categories.get(ins.category_token) {
            Some(c) => c,
            None => {
                proof {
                    lemma_lookup_some_iff_has(categories.rows(), ins.category_token);
                    assert(model == orig[k]);
                }
                return Err(BuildError::UnresolvedReference {
                    table: SourceId::Category,
                    token: ins.category_token,
                });
            },
        };
        let name = cat.name.clone();
        out.push(SampleAnnotation::from_model(name, model));
    }
    Ok(out)
}

/// The capture that fills a sample's slot for one channel: the token of
/// the last capture row carrying that sample and channel, or the zero
/// token when no row does.
pub open spec fn channel_slot(sds: Seq<SampleData>, s: Token, c: SensorChannel) -> Token
    decreases sds.len(),
{
    if sds.len() == 0 {
        0
    } else if sds.last().sample_token == s && sds.last().channel == c {
        sds.last().token
    } else {
        channel_slot(sds.drop_last(), s, c)
    }
}

/// A sample's annotation set: the tokens of all annotation rows carrying
/// the sample, in source-file order.
pub open spec fn ann_tokens(anns: Seq<SampleAnnotation>, s: Token) -> Seq<Token>
    decreases anns.len(),
{
    if anns.len() == 0 {
        Seq::empty()
    } else if anns.last().sample_token == s {
        ann_tokens(anns.drop_last(), s).push(anns.last().token)
    } else {
        ann_tokens(anns.drop_last(), s)
    }
}

/// The aggregation pass copies every source field and attaches the full
/// channel-slot map and annotation set of the sample.
pub open spec fn aggregated_sample(
    r: Sample,
    m: SampleModel,
    sds: Seq<SampleData>,
    anns: Seq<SampleAnnotation>,
) -> bool {
    &&& r.token == m.token
    &&& r.scene_token == m.scene_token
    &&& r.prev == m.prev
    &&& r.next == m.next
    &&& r.timestamp == m.timestamp
    &&& r.data.wf()
    &&& forall|c: SensorChannel| r.data.spec_get(c) == channel_slot(sds, m.token, c)
    &&& r.anns@ == ann_tokens(anns, m.token)
}

/// Copies a token list.
fn clone_tokens(v: &Vec<Token>) -> (r: Vec<Token>)
    ensures
        r@ == v@,
{
    let mut r: Vec<Token> = Vec::new();
    let n = v.len();
    let mut i: usize = 0;
    while i < n
        invariant
            i <= n,
            n == v@.len(),
            r@ =~= v@.take(i as int),
        decreases n - i,
    {
        r.push(v[i]);
        i = i + 1;
    }
    proof {
        assert(v@.take(n as int) =~= v@);
    }
    r
}

/// Aggregation pass: rebuilds every sample with its per-channel capture
/// slots and its annotation token set, grouped from the already-resolved
/// capture and annotation tables. Aggregation cannot fail: a sample no
/// capture or annotation mentions gets empty slots and an empty set.
#[verifier::loop_isolation(false)]
pub fn aggregate_samples(
    models: Vec<SampleModel>,
    sample_data: &Table<SampleData>,
    anns: &Table<SampleAnnotation>,
) -> (out: Vec<Sample>)
    ensures
        out@.len() == models@.len(),
        forall|i: int|
            0 <= i < models@.len() ==> aggregated_sample(
                #[trigger] out@[i],
                models@[i],
                sample_data.rows(),
                anns.rows(),
            ),
{
    let ghost orig = models@;

    let mut sd_map: HashMap<Token, ChannelSlots> = HashMap::new();
    let nsd = sample_data.len();
    let mut i: usize = 0;
    while i < nsd
        invariant
            i <= nsd,
            forall|st: Token| sd_map@.contains_key(st) ==> (#[trigger] sd_map@[st]).wf(),
            forall|st: Token, c: SensorChannel|
                sd_map@.contains_key(st) ==> #[trigger] sd_map@[st].spec_get(c) == channel_slot(
                    sample_data.rows().take(i as int),
                    st,
                    c,
                ),
            forall|st: Token, c: SensorChannel|
                !sd_map@.contains_key(st) ==> #[trigger] channel_slot(
                    sample_data.rows().take(i as int),
                    st,
                    c,
                ) == 0,
        decreases nsd - i,
    {
        let sd = sample_data.at(i);
        let st = sd.sample_token;
        let tok = sd.token;
        let ch = sd.channel;
        let ghost row = sample_data.rows()[i as int];
        let mut cur: ChannelSlots = match sd_map.remove(&st) {
            Some(v) => v,
            None => ChannelSlots::empty(),
        };
        proof {
            assert(forall|c: SensorChannel| #[trigger] cur.spec_get(c) == channel_slot(
                sample_data.rows().take(i as int),
                st,
                c,
            ));
        }
        cur.set(ch, tok);
        sd_map.insert(st, cur);
        proof {
            let prev = sample_data.rows().take(i as int);
            let next = sample_data.rows().take(i + 1);
            assert(next =~= prev.push(row));
            assert(next.drop_last() =~= prev);
            assert(next.last() == row);
            assert forall|st2: Token, c: SensorChannel| #[trigger] channel_slot(next, st2, c) == (
            if st2 == row.sample_token && c == row.channel {
                row.token
            } else {
                channel_slot(prev, st2, c)
            }) by {}
        }
        i = i + 1;
    }
    proof {
        assert(sample_data.rows().take(nsd as int) =~= sample_data.rows());
    }

    let mut ann_map: HashMap<Token, Vec<Token>> = HashMap::new();
    let nan = anns.len();
    let mut i: usize = 0;
    while i < nan
        invariant
            i <= nan,
            forall|st: Token|
                ann_map@.contains_key(st) ==> (#[trigger] ann_map@[st])@ == ann_tokens(
                    anns.rows().take(i as int),
                    st,
                ),
            forall|st: Token|
                !ann_map@.contains_key(st) ==> #[trigger] ann_tokens(
                    anns.rows().take(i as int),
                    st,
                ) == Seq::<Token>::empty(),
        decreases nan - i,
    {
        let a = anns.at(i);
        let st = a.sample_token;
        let tok = a.token;
        let ghost row = anns.rows()[i as int];
        let mut lst: Vec<Token> = match ann_map.remove(&st) {
            Some(v) => v,
            None => Vec::new(),
        };
        proof {
            assert(lst@ == ann_tokens(anns.rows().take(i as int), st));
        }
        lst.push(tok);
        ann_map.insert(st, lst);
        proof {
            let prev = anns.rows().take(i as int);
            let next = anns.rows().take(i + 1);
            assert(next =~= prev.push(row));
            assert(next.drop_last() =~= prev);
            assert(next.last() == row);
            assert forall|st2: Token| #[trigger] ann_tokens(next, st2) == (if st2
                == row.sample_token {
                ann_tokens(prev, st2).push(row.token)
            } else {
                ann_tokens(prev, st2)
            }) by {}
        }
        i = i + 1;
    }
    proof {
        assert(anns.rows().take(nan as int) =~= anns.rows());
    }

    let mut rev = reversed(models);
    let mut out: Vec<Sample> = Vec::new();
    while rev.len() > 0
        invariant
            rev@ =~= orig.reverse().take(rev@.len() as int),
            out@.len() + rev@.len() == orig.len(),
            forall|i: int|
                0 <= i < out@.len() ==> aggregated_sample(
                    #[trigger] out@[i],
                    orig[i],
                    sample_data.rows(),
                    anns.rows(),
                ),
        decreases rev@.len(),
    {
        let ghost k = out@.len() as int;
        proof {
            assert(rev@.last() == orig.reverse()[rev@.len() - 1]);
            assert(orig.reverse()[rev@.len() - 1] == orig[k]);
        }
        let model = rev.pop().unwrap();
        let data: ChannelSlots = match sd_map.get(&model.token) {
            Some(cs) => {
                let d = ChannelSlots { slots: clone_tokens(&cs.slots) };
                proof {
                    assert(sd_map@[model.token].wf());
                    assert forall|c: SensorChannel| #[trigger] d.spec_get(c) == channel_slot(
                        sample_data.rows(),
                        model.token,
                        c,
                    ) by {
                        assert(sd_map@[model.token].spec_get(c) == channel_slot(
                            sample_data.rows().take(nsd as int),
                            model.token,
                            c,
                        ));
                        assert(d.spec_get(c) == cs.spec_get(c));
                    }
                }
                d
            },
            None => {
                let d = ChannelSlots::empty();
                proof {
                    assert forall|c: SensorChannel| #[trigger] d.spec_get(c) == channel_slot(
                        sample_data.rows(),
                        model.token,
                        c,
                    ) by {
                        assert(channel_slot(sample_data.rows().take(nsd as int), model.token, c)
                            == 0);
                    }
                }
                d
            },
        };
        let ann_list: Vec<Token> = match ann_map.get(&model.token) {
            Some(v) => {
                let l = clone_tokens(v);
                proof {
                    assert(ann_map@[model.token]@ == ann_tokens(
                        anns.rows().take(nan as int),
                        model.token,
                    ));
                    assert(l@ == ann_tokens(anns.rows(), model.token));
                }
                l
            },
            None => {
                let l: Vec<Token> = Vec::new();
                proof {
                    assert(ann_tokens(anns.rows().take(nan as int), model.token)
                        == Seq::<Token>::empty());
                    assert(l@ == ann_tokens(anns.rows(), model.token));
                }
                l
            },
        };
        out.push(Sample::from_model(data, ann_list, model));
    }
    out
}

} // verus!
