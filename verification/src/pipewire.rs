//! What a PipeWire object dump says about audio sources and playback
//! targets. The dump arrives as plain values: each object's type, its
//! string-valued properties, and its metadata entries.

use vstd::prelude::*;
use crate::audio::CaptureSettings;
use crate::error::{AudioError, AudioErrorView};
use crate::models::{
    AudioSource, AudioSourceKind, AudioSourceView, PlaybackTarget, PlaybackTargetAvailability,
    PlaybackTargetKind, PlaybackTargetView, source_views, target_views,
};
use crate::seqs::{any_index, first_index, lemma_first_index_is, lemma_no_index};
use crate::text::{append_str, seq_lt, str_eq, str_lt};

verus! {

/// The string-valued properties of an object, in dump order.
#[derive(Debug, Clone, PartialEq, Eq)]
pub struct PwProps {
    pub entries: Vec<(String, String)>,
}

/// One entry of a metadata object: its key and the `name` of its value,
/// where those are strings.
#[derive(Debug, Clone, PartialEq, Eq)]
pub struct PwMetadataEntry {
    pub key: Option<String>,
    pub value_name: Option<String>,
}

/// One object of the dump.
#[derive(Debug, Clone, PartialEq, Eq)]
pub struct PwObject {
    pub object_type: Option<String>,
    pub info_props: Option<PwProps>,
    pub props: Option<PwProps>,
    pub metadata: Option<Vec<PwMetadataEntry>>,
}

pub open spec fn props_view(p: PwProps) -> Seq<(Seq<char>, Seq<char>)> {
    p.entries@.map_values(|e: (String, String)| (e.0@, e.1@))
}

/// The value of the first property named `key`.
pub open spec fn prop_value(props: Seq<(Seq<char>, Seq<char>)>, key: Seq<char>) -> Option<Seq<char>>
    decreases props.len(),
{
    if props.len() == 0 {
        None
    } else {
        match prop_value(props.drop_last(), key) {
            Some(v) => Some(v),
            None => if props.last().0 == key { Some(props.last().1) } else { None },
        }
    }
}

/// An object's properties: those under `info`, else its own.
pub open spec fn object_props(o: PwObject) -> Option<Seq<(Seq<char>, Seq<char>)>> {
    match o.info_props {
        Some(p) => Some(props_view(p)),
        None => match o.props {
            Some(p) => Some(props_view(p)),
            None => None,
        },
    }
}

pub open spec fn opt_text(o: Option<String>) -> Option<Seq<char>> {
    match o {
        Some(s) => Some(s@),
        None => None,
    }
}

/// The value name of the first entry under `key` that has one.
pub open spec fn entry_value(entries: Seq<PwMetadataEntry>, key: Seq<char>) -> Option<Seq<char>>
    decreases entries.len(),
{
    if entries.len() == 0 {
        None
    } else {
        match entry_value(entries.drop_last(), key) {
            Some(v) => Some(v),
            None => if opt_text(entries.last().key) == Some(key) { opt_text(entries.last().value_name) } else { None },
        }
    }
}

/// The `default` metadata object.
pub open spec fn is_default_metadata(o: PwObject) -> bool {
    opt_text(o.object_type) == Some("PipeWire:Interface:Metadata"@) && match object_props(o) {
        Some(p) => prop_value(p, "metadata.name"@) == Some("default"@),
        None => false,
    }
}

pub open spec fn metadata_entries(o: PwObject) -> Seq<PwMetadataEntry> {
    match o.metadata {
        Some(m) => m@,
        None => Seq::empty(),
    }
}

/// The node name the `default` metadata gives for `key`.
pub open spec fn default_node(objects: Seq<PwObject>, key: Seq<char>) -> Option<Seq<char>>
    decreases objects.len(),
{
    if objects.len() == 0 {
        None
    } else {
        match default_node(objects.drop_last(), key) {
            Some(v) => Some(v),
            None => if is_default_metadata(objects.last()) {
                entry_value(metadata_entries(objects.last()), key)
            } else {
                None
            },
        }
    }
}

/// A node's shown name: its description, else its nickname, else `fallback`.
pub open spec fn node_display_name(props: Seq<(Seq<char>, Seq<char>)>, fallback: Seq<char>) -> Seq<char> {
    match prop_value(props, "node.description"@) {
        Some(d) => d,
        None => match prop_value(props, "node.nick"@) {
            Some(n) => n,
            None => fallback,
        },
    }
}

/// What a node object offers, with its properties, media class and name.
pub open spec fn node_parts(o: PwObject) -> Option<(Seq<(Seq<char>, Seq<char>)>, Seq<char>, Seq<char>)> {
    if opt_text(o.object_type) != Some("PipeWire:Interface:Node"@) {
        None
    } else {
        match object_props(o) {
            None => None,
            Some(p) => match prop_value(p, "media.class"@) {
                None => None,
                Some(class) => match prop_value(p, "node.name"@) {
                    None => None,
                    Some(name) => Some((p, class, name)),
                },
            },
        }
    }
}

/// The capture source a node is, if any: sinks are captured through their
/// monitor, sources directly.
pub open spec fn node_source(o: PwObject, default_sink: Option<Seq<char>>, default_source: Option<Seq<char>>) -> Option<AudioSourceView> {
    match node_parts(o) {
        None => None,
        Some((p, class, name)) => if class == "Audio/Sink"@ {
            Some(AudioSourceView {
                id: name,
                display_name: node_display_name(p, name) + " (monitor)"@,
                kind: AudioSourceKind::Monitor,
                is_default: default_sink == Some(name),
            })
        } else if class == "Audio/Source"@ {
            Some(AudioSourceView {
                id: name,
                display_name: node_display_name(p, name),
                kind: AudioSourceKind::Microphone,
                is_default: default_source == Some(name),
            })
        } else {
            None
        },
    }
}

/// The capture sources of the dump, in dump order.
pub open spec fn dump_sources(objects: Seq<PwObject>, default_sink: Option<Seq<char>>, default_source: Option<Seq<char>>) -> Seq<AudioSourceView>
    decreases objects.len(),
{
    if objects.len() == 0 {
        Seq::empty()
    } else {
        let rest = dump_sources(objects.drop_last(), default_sink, default_source);
        match node_source(objects.last(), default_sink, default_source) {
            Some(s) => rest.push(s),
            None => rest,
        }
    }
}

/// Monitors first, then microphones, then application streams.
pub open spec fn spec_capture_source_rank(kind: AudioSourceKind) -> u8 {
    match kind {
        AudioSourceKind::Monitor => 0,
        AudioSourceKind::Microphone => 1,
        AudioSourceKind::Application => 2,
    }
}

pub fn capture_source_rank(kind: AudioSourceKind) -> (r: u8)
    ensures
        r == spec_capture_source_rank(kind),
{
    match kind {
        AudioSourceKind::Monitor => 0,
        AudioSourceKind::Microphone => 1,
        AudioSourceKind::Application => 2,
    }
}

/// Source `a` is listed before `b`: defaults first, then by kind, then by
/// name.
pub open spec fn source_precedes(a: AudioSourceView, b: AudioSourceView) -> bool {
    (a.is_default && !b.is_default) || (a.is_default == b.is_default && (spec_capture_source_rank(a.kind)
        < spec_capture_source_rank(b.kind) || (spec_capture_source_rank(a.kind) == spec_capture_source_rank(b.kind)
        && seq_lt(a.display_name, b.display_name))))
}

pub open spec fn source_listed_after(x: AudioSourceView) -> spec_fn(AudioSourceView) -> bool {
    |e: AudioSourceView| source_precedes(x, e)
}

pub open spec fn insert_source(s: Seq<AudioSourceView>, x: AudioSourceView) -> Seq<AudioSourceView> {
    if any_index(s, source_listed_after(x)) {
        s.insert(first_index(s, source_listed_after(x)), x)
    } else {
        s.push(x)
    }
}

/// Sources in listing order, equal ones in dump order.
pub open spec fn ordered_sources(s: Seq<AudioSourceView>) -> Seq<AudioSourceView>
    decreases s.len(),
{
    if s.len() == 0 {
        s
    } else {
        insert_source(ordered_sources(s.drop_last()), s.last())
    }
}

/// The playback target a node is, if any: every sink.
pub open spec fn node_target(o: PwObject, default_sink: Option<Seq<char>>) -> Option<PlaybackTargetView> {
    match node_parts(o) {
        None => None,
        Some((p, class, name)) => if class == "Audio/Sink"@ {
            Some(PlaybackTargetView {
                id: name,
                display_name: node_display_name(p, name),
                is_default: default_sink == Some(name),
                kind: PlaybackTargetKind::Standard,
                availability: PlaybackTargetAvailability::Available,
                bluetooth_address: None,
            })
        } else {
            None
        },
    }
}

pub open spec fn dump_targets(objects: Seq<PwObject>, default_sink: Option<Seq<char>>) -> Seq<PlaybackTargetView>
    decreases objects.len(),
{
    if objects.len() == 0 {
        Seq::empty()
    } else {
        let rest = dump_targets(objects.drop_last(), default_sink);
        match node_target(objects.last(), default_sink) {
            Some(t) => rest.push(t),
            None => rest,
        }
    }
}

/// Target `a` is listed before `b`: the default first, then by name.
pub open spec fn target_precedes(a: PlaybackTargetView, b: PlaybackTargetView) -> bool {
    (a.is_default && !b.is_default) || (a.is_default == b.is_default && seq_lt(a.display_name, b.display_name))
}

pub open spec fn target_listed_after(x: PlaybackTargetView) -> spec_fn(PlaybackTargetView) -> bool {
    |e: PlaybackTargetView| target_precedes(x, e)
}

pub open spec fn insert_target(s: Seq<PlaybackTargetView>, x: PlaybackTargetView) -> Seq<PlaybackTargetView> {
    if any_index(s, target_listed_after(x)) {
        s.insert(first_index(s, target_listed_after(x)), x)
    } else {
        s.push(x)
    }
}

pub open spec fn ordered_targets(s: Seq<PlaybackTargetView>) -> Seq<PlaybackTargetView>
    decreases s.len(),
{
    if s.len() == 0 {
        s
    } else {
        insert_target(ordered_targets(s.drop_last()), s.last())
    }
}

fn find_prop<'a>(props: &'a PwProps, key: &str) -> (r: Option<&'a String>)
    ensures
        opt_text(match r { Some(v) => Some(*v), None => None }) == prop_value(props_view(*props), key@),
{
    let ghost view = props_view(*props);
    let mut i: usize = 0;
    let mut found: Option<&String> = None;
    while i < props.entries.len()
        invariant
            i <= props.entries@.len(),
            view == props_view(*props),
            opt_text(match found { Some(v) => Some(*v), None => None }) == prop_value(view.subrange(0, i as int), key@),
        decreases props.entries@.len() - i,
    {
        assert(view.subrange(0, i + 1).drop_last() =~= view.subrange(0, i as int));
        if found.is_none() && str_eq(props.entries[i].0.as_str(), key) {
            found = Some(&props.entries[i].1);
        }
        i = i + 1;
    }
    assert(view.subrange(0, view.len() as int) =~= view);
    found
}

fn props_of(object: &PwObject) -> (r: Option<&PwProps>)
    ensures
        match r {
            Some(p) => object_props(*object) == Some(props_view(*p)),
            None => object_props(*object) is None,
        },
{
    match &object.info_props {
        Some(p) => Some(p),
        None => match &object.props {
            Some(p) => Some(p),
            None => None,
        },
    }
}

fn has_type(object: &PwObject, wanted: &str) -> (r: bool)
    ensures
        r == (opt_text(object.object_type) == Some(wanted@)),
{
    match &object.object_type {
        Some(t) => str_eq(t.as_str(), wanted),
        None => false,
    }
}

fn metadata_value(entries: &Vec<PwMetadataEntry>, key: &str) -> (r: Option<String>)
    ensures
        opt_text(r) == entry_value(entries@, key@),
{
    let mut i: usize = 0;
    let mut found: Option<String> = None;
    while i < entries.len()
        invariant
            i <= entries@.len(),
            opt_text(found) == entry_value(entries@.subrange(0, i as int), key@),
        decreases entries@.len() - i,
    {
        assert(entries@.subrange(0, i + 1).drop_last() =~= entries@.subrange(0, i as int));
        if found.is_none() {
            let entry = &entries[i];
            let key_matches = match &entry.key {
                Some(k) => str_eq(k.as_str(), key),
                None => false,
            };
            if key_matches {
                found = match &entry.value_name {
                    Some(v) => Some(v.clone()),
                    None => None,
                };
            }
        }
        i = i + 1;
    }
    assert(entries@.subrange(0, entries@.len() as int) =~= entries@);
    found
}

/// The node name the `default` metadata object gives for `key`.
pub fn default_node_name(objects: &[PwObject], key: &str) -> (r: Option<String>)
    ensures
        opt_text(r) == default_node(objects@, key@),
{
    let mut i: usize = 0;
    let mut found: Option<String> = None;
    while i < objects.len()
        invariant
            i <= objects@.len(),
            opt_text(found) == default_node(objects@.subrange(0, i as int), key@),
        decreases objects@.len() - i,
    {
        assert(objects@.subrange(0, i + 1).drop_last() =~= objects@.subrange(0, i as int));
        if found.is_none() {
            let object = &objects[i];
            let is_default = has_type(object, "PipeWire:Interface:Metadata") && match props_of(object) {
                Some(p) => match find_prop(p, "metadata.name") {
                    Some(v) => str_eq(v.as_str(), "default"),
                    None => false,
                },
                None => false,
            };
            if is_default {
                found = match &object.metadata {
                    Some(entries) => metadata_value(entries, key),
                    None => None,
                };
            }
        }
        i = i + 1;
    }
    assert(objects@.subrange(0, objects@.len() as int) =~= objects@);
    found
}

fn node_name_of(props: &PwProps, fallback: &String) -> (r: String)
    ensures
        r@ == node_display_name(props_view(*props), fallback@),
{
    match find_prop(props, "node.description") {
        Some(d) => d.clone(),
        None => match find_prop(props, "node.nick") {
            Some(n) => n.clone(),
            None => fallback.clone(),
        },
    }
}

fn opt_eq(a: &Option<String>, b: &String) -> (r: bool)
    ensures
        r == (opt_text(*a) == Some(b@)),
{
    match a {
        Some(x) => *x == *b,
        None => false,
    }
}

fn source_of(object: &PwObject, default_sink: &Option<String>, default_source: &Option<String>) -> (r: Option<AudioSource>)
    ensures
        match r {
            Some(s) => node_source(*object, opt_text(*default_sink), opt_text(*default_source)) == Some(s@),
            None => node_source(*object, opt_text(*default_sink), opt_text(*default_source)) is None,
        },
{
    if !has_type(object, "PipeWire:Interface:Node") {
        return None;
    }
    let props = match props_of(object) {
        Some(p) => p,
        None => return None,
    };
    let class = match find_prop(props, "media.class") {
        Some(c) => c,
        None => return None,
    };
    let name = match find_prop(props, "node.name") {
        Some(n) => n,
        None => return None,
    };
    if str_eq(class.as_str(), "Audio/Sink") {
        let mut shown = node_name_of(props, name);
        append_str(&mut shown, " (monitor)");
        Some(AudioSource {
            id: name.clone(),
            display_name: shown,
            kind: AudioSourceKind::Monitor,
            is_default: opt_eq(default_sink, name),
        })
    } else if str_eq(class.as_str(), "Audio/Source") {
        Some(AudioSource {
            id: name.clone(),
            display_name: node_name_of(props, name),
            kind: AudioSourceKind::Microphone,
            is_default: opt_eq(default_source, name),
        })
    } else {
        None
    }
}

fn source_before(a: &AudioSource, b: &AudioSource) -> (r: bool)
    ensures
        r == source_precedes(a@, b@),
{
    let ra = capture_source_rank(a.kind);
    let rb = capture_source_rank(b.kind);
    (a.is_default && !b.is_default) || (a.is_default == b.is_default && (ra < rb || (ra == rb && str_lt(
        a.display_name.as_str(),
        b.display_name.as_str(),
    ))))
}

/// The capture sources of a dump: sinks as monitors, sources as
/// microphones, defaults marked, listed defaults first, then by kind and name.
pub fn pipewire_sources(objects: &[PwObject]) -> (r: Vec<AudioSource>)
    ensures
        source_views(r@) == ordered_sources(
            dump_sources(
                objects@,
                default_node(objects@, "default.audio.sink"@),
                default_node(objects@, "default.audio.source"@),
            ),
        ),
{
    let default_sink = default_node_name(objects, "default.audio.sink");
    let default_source = default_node_name(objects, "default.audio.source");
    let ghost ds = opt_text(default_sink);
    let ghost dsrc = opt_text(default_source);
    let mut sorted: Vec<AudioSource> = Vec::new();
    let mut i: usize = 0;
    while i < objects.len()
        invariant
            i <= objects@.len(),
            ds == opt_text(default_sink),
            dsrc == opt_text(default_source),
            source_views(sorted@) == ordered_sources(dump_sources(objects@.subrange(0, i as int), ds, dsrc)),
        decreases objects@.len() - i,
    {
        let ghost prefix = objects@.subrange(0, i as int);
        assert(objects@.subrange(0, i + 1).drop_last() =~= prefix);
        assert(objects@.subrange(0, i + 1).last() == objects@[i as int]);
        if let Some(source) = source_of(&objects[i], &default_sink, &default_source) {
            let ghost current = source_views(sorted@);
            let mut pos: usize = 0;
            while pos < sorted.len() && !source_before(&source, &sorted[pos])
                invariant
                    pos <= sorted@.len(),
                    current == source_views(sorted@),
                    forall|j: int| 0 <= j < pos ==> !source_listed_after(source@)(#[trigger] current[j]),
                decreases sorted@.len() - pos,
            {
                assert(current[pos as int] == sorted@[pos as int]@);
                pos = pos + 1;
            }
            proof {
                let p = dump_sources(prefix, ds, dsrc);
                assert(dump_sources(objects@.subrange(0, i + 1), ds, dsrc) =~= p.push(source@));
                assert(p.push(source@).drop_last() =~= p);
                if pos < sorted@.len() {
                    assert(current[pos as int] == sorted@[pos as int]@);
                    lemma_first_index_is(current, source_listed_after(source@), pos as int);
                } else {
                    lemma_no_index(current, source_listed_after(source@));
                }
            }
            let ghost shown = source@;
            sorted.insert(pos, source);
            assert(source_views(sorted@) =~= current.insert(pos as int, shown));
        }
        i = i + 1;
    }
    assert(objects@.subrange(0, objects@.len() as int) =~= objects@);
    sorted
}

fn target_of(object: &PwObject, default_sink: &Option<String>) -> (r: Option<PlaybackTarget>)
    ensures
        match r {
            Some(t) => node_target(*object, opt_text(*default_sink)) == Some(t@),
            None => node_target(*object, opt_text(*default_sink)) is None,
        },
{
    if !has_type(object, "PipeWire:Interface:Node") {
        return None;
    }
    let props = match props_of(object) {
        Some(p) => p,
        None => return None,
    };
    let class = match find_prop(props, "media.class") {
        Some(c) => c,
        None => return None,
    };
    let name = match find_prop(props, "node.name") {
        Some(n) => n,
        None => return None,
    };
    if !str_eq(class.as_str(), "Audio/Sink") {
        return None;
    }
    Some(PlaybackTarget {
        id: name.clone(),
        display_name: node_name_of(props, name),
        is_default: opt_eq(default_sink, name),
        kind: PlaybackTargetKind::Standard,
        availability: PlaybackTargetAvailability::Available,
        bluetooth_address: None,
    })
}

fn target_before(a: &PlaybackTarget, b: &PlaybackTarget) -> (r: bool)
    ensures
        r == target_precedes(a@, b@),
{
    (a.is_default && !b.is_default) || (a.is_default == b.is_default && str_lt(
        a.display_name.as_str(),
        b.display_name.as_str(),
    ))
}

/// The playback targets of a dump: every sink, the default marked, listed
/// default first, then by name.
pub fn pipewire_playback_targets(objects: &[PwObject]) -> (r: Vec<PlaybackTarget>)
    ensures
        target_views(r@) == ordered_targets(dump_targets(objects@, default_node(objects@, "default.audio.sink"@))),
{
    let default_sink = default_node_name(objects, "default.audio.sink");
    let ghost ds = opt_text(default_sink);
    let mut sorted: Vec<PlaybackTarget> = Vec::new();
    let mut i: usize = 0;
    while i < objects.len()
        invariant
            i <= objects@.len(),
            ds == opt_text(default_sink),
            target_views(sorted@) == ordered_targets(dump_targets(objects@.subrange(0, i as int), ds)),
        decreases objects@.len() - i,
    {
        let ghost prefix = objects@.subrange(0, i as int);
        assert(objects@.subrange(0, i + 1).drop_last() =~= prefix);
        assert(objects@.subrange(0, i + 1).last() == objects@[i as int]);
        if let Some(target) = target_of(&objects[i], &default_sink) {
            let ghost current = target_views(sorted@);
            let mut pos: usize = 0;
            while pos < sorted.len() && !target_before(&target, &sorted[pos])
                invariant
                    pos <= sorted@.len(),
                    current == target_views(sorted@),
                    forall|j: int| 0 <= j < pos ==> !target_listed_after(target@)(#[trigger] current[j]),
                decreases sorted@.len() - pos,
            {
                assert(current[pos as int] == sorted@[pos as int]@);
                pos = pos + 1;
            }
            proof {
                let p = dump_targets(prefix, ds);
                assert(dump_targets(objects@.subrange(0, i + 1), ds) =~= p.push(target@));
                assert(p.push(target@).drop_last() =~= p);
                if pos < sorted@.len() {
                    assert(current[pos as int] == sorted@[pos as int]@);
                    lemma_first_index_is(current, target_listed_after(target@), pos as int);
                } else {
                    lemma_no_index(current, target_listed_after(target@));
                }
            }
            let ghost shown = target@;
            sorted.insert(pos, target);
            assert(target_views(sorted@) =~= current.insert(pos as int, shown));
        }
        i = i + 1;
    }
    assert(objects@.subrange(0, objects@.len() as int) =~= objects@);
    sorted
}

/// Why capture settings are refused, if they are.
pub open spec fn capture_refusal(settings: CaptureSettings) -> Option<Seq<char>> {
    if settings.sample_rate_hz == 0 {
        Some("sample_rate_hz must be greater than zero"@)
    } else if settings.channels == 0 {
        Some("channels must be greater than zero"@)
    } else if settings.buffer_frames == 0 {
        Some("buffer_frames must be greater than zero"@)
    } else {
        None
    }
}

pub fn validate_capture_settings(settings: &CaptureSettings) -> (r: Result<(), AudioError>)
    ensures
        match capture_refusal(*settings) {
            Some(m) => r is Err && r->Err_0@ == AudioErrorView::InvalidSettings(m),
            None => r is Ok,
        },
{
    if settings.sample_rate_hz == 0 {
        return Err(AudioError::InvalidSettings("sample_rate_hz must be greater than zero".to_owned()));
    }
    if settings.channels == 0 {
        return Err(AudioError::InvalidSettings("channels must be greater than zero".to_owned()));
    }
    if settings.buffer_frames == 0 {
        return Err(AudioError::InvalidSettings("buffer_frames must be greater than zero".to_owned()));
    }
    Ok(())
}


/// The source a capture records: the one the settings name, else the one
/// picked as the default among `sources`.
pub open spec fn capture_source_choice(settings_source: Option<Seq<char>>, sources: Seq<AudioSourceView>) -> Option<Seq<char>> {
    match settings_source {
        Some(id) => Some(id),
        None => crate::state::default_source_choice(sources),
    }
}

pub fn capture_source_for(settings: &CaptureSettings, sources: &Vec<AudioSource>) -> (r: Result<String, AudioError>)
    ensures
        match capture_source_choice(opt_text(settings.source_id), source_views(sources@)) {
            Some(id) => r is Ok && r->Ok_0@ == id,
            None => r is Err && r->Err_0@ == AudioErrorView::BackendUnavailable(
                "no PipeWire audio sources or monitor sources were found"@,
            ),
        },
{
    match &settings.source_id {
        Some(id) => Ok(id.clone()),
        None => match crate::state::default_source_position(sources) {
            Some(i) => {
                assert(source_views(sources@)[i as int] == sources@[i as int]@);
                Ok(sources[i].id.clone())
            },
            None => Err(AudioError::BackendUnavailable(
                "no PipeWire audio sources or monitor sources were found".to_owned(),
            )),
        },
    }
}

/// Bytes read from the recorder at a time: one capture chunk, at least one
/// frame.
pub fn capture_read_bytes(settings: &CaptureSettings) -> (r: usize)
    requires
        settings.spec_chunk_bytes() <= usize::MAX,
    ensures
        r == (if settings.spec_chunk_bytes() > settings.spec_bytes_per_frame() {
            settings.spec_chunk_bytes()
        } else {
            settings.spec_bytes_per_frame()
        }),
{
    let chunk = settings.chunk_bytes();
    let frame = settings.bytes_per_frame();
    if chunk > frame { chunk } else { frame }
}

pub open spec fn record_args_view(settings: CaptureSettings, source_id: Seq<char>) -> Seq<Seq<char>> {
    seq![
        "--target"@,
        source_id,
        "--raw"@,
        "--rate"@,
        crate::text::decimal(settings.sample_rate_hz as nat),
        "--channels"@,
        crate::text::decimal(settings.channels as nat),
        "--format"@,
        crate::playback::format_name(settings.sample_format),
        "--latency"@,
        crate::text::decimal(settings.target_latency_ms as nat) + "ms"@,
        "-"@,
    ]
}

/// Captures through the `pw-dump` and `pw-record` programs.
#[derive(Debug, Clone)]
pub struct LinuxAudioBackend {
    pub pw_dump_bin: String,
    pub pw_record_bin: String,
}

impl LinuxAudioBackend {
    pub fn new() -> (r: Self)
        ensures
            r.pw_dump_bin@ == "pw-dump"@,
            r.pw_record_bin@ == "pw-record"@,
    {
        LinuxAudioBackend { pw_dump_bin: "pw-dump".to_owned(), pw_record_bin: "pw-record".to_owned() }
    }

    pub fn with_tools(pw_dump_bin: &str, pw_record_bin: &str) -> (r: Self)
        ensures
            r.pw_dump_bin@ == pw_dump_bin@,
            r.pw_record_bin@ == pw_record_bin@,
    {
        LinuxAudioBackend { pw_dump_bin: pw_dump_bin.to_owned(), pw_record_bin: pw_record_bin.to_owned() }
    }

    pub fn backend_name(&self) -> (r: &'static str)
        ensures
            r@ == "linux-pipewire"@,
    {
        "linux-pipewire"
    }

    /// The `pw-record` arguments that capture `source_id` with `settings`,
    /// once the settings are valid.
    pub fn record_args(&self, settings: &CaptureSettings, source_id: &str) -> (r: Result<Vec<String>, AudioError>)
        ensures
            match capture_refusal(*settings) {
                Some(m) => r is Err && r->Err_0@ == AudioErrorView::InvalidSettings(m),
                None => r is Ok && crate::playback::strings_view(r->Ok_0@) == record_args_view(*settings, source_id@),
            },
    {
        validate_capture_settings(settings)?;
        let mut args: Vec<String> = Vec::new();
        args.push("--target".to_owned());
        args.push(source_id.to_owned());
        args.push("--raw".to_owned());
        args.push("--rate".to_owned());
        args.push(crate::text::decimal_string(settings.sample_rate_hz as u64));
        args.push("--channels".to_owned());
        args.push(crate::text::decimal_string(settings.channels as u64));
        args.push("--format".to_owned());
        args.push(crate::playback::pipewire_format_name(settings.sample_format).to_owned());
        args.push("--latency".to_owned());
        args.push(crate::playback::latency_arg(settings.target_latency_ms));
        args.push("-".to_owned());
        assert(crate::playback::strings_view(args@) =~= record_args_view(*settings, source_id@));
        Ok(args)
    }
}

impl Default for LinuxAudioBackend {
    fn default() -> (r: Self)
        ensures
            r.pw_dump_bin@ == "pw-dump"@,
            r.pw_record_bin@ == "pw-record"@,
    {
        LinuxAudioBackend::new()
    }
}

} // verus!
