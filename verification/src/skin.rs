//! The skin-reload machinery: classification of filesystem-watch events,
//! the decision of which image a load uses and whether a live watch
//! remains, and the decoding of image bytes through the `image` crate.
//! Reading the watched file, creating the watch subscription and uploading
//! the texture are I/O and stay outside; this module decides everything
//! about their results.

use vstd::prelude::*;

verus! {

/// One filesystem-watch notification, reduced to the flags and name the
/// viewer reads.
#[derive(Clone, Debug)]
pub struct WatchEvent {
    pub is_dir: bool,
    pub is_modify: bool,
    pub is_create: bool,
    pub is_delete_self: bool,
    pub name: String,
}

/// What a polling cycle found out about the watched skin file.
#[derive(Clone, Debug, PartialEq, Eq)]
pub enum SkinFileUpdate {
    NoUpdate,
    New(String),
    Modified,
    Deleted,
}

/// The classification of a batch of watch events: only the first event is
/// inspected (a known limitation of the viewer), directory events are
/// ignored, and modification takes precedence over creation, which takes
/// precedence over self-deletion.
pub open spec fn skin_update_of(evs: Seq<WatchEvent>) -> SkinFileUpdate {
    if evs.len() == 0 {
        SkinFileUpdate::NoUpdate
    } else if evs[0].is_dir {
        SkinFileUpdate::NoUpdate
    } else if evs[0].is_modify {
        SkinFileUpdate::Modified
    } else if evs[0].is_create {
        SkinFileUpdate::New(evs[0].name)
    } else if evs[0].is_delete_self {
        SkinFileUpdate::Deleted
    } else {
        SkinFileUpdate::NoUpdate
    }
}

/// Classify the watch events of one polling cycle.
pub fn get_skin_file_update(events: &Vec<WatchEvent>) -> (r: SkinFileUpdate)
    ensures
        r == skin_update_of(events@),
{
    if events.len() == 0 {
        return SkinFileUpdate::NoUpdate;
    }
    let e = &events[0];
    if e.is_dir {
        SkinFileUpdate::NoUpdate
    } else if e.is_modify {
        SkinFileUpdate::Modified
    } else if e.is_create {
        SkinFileUpdate::New(e.name.clone())
    } else if e.is_delete_self {
        SkinFileUpdate::Deleted
    } else {
        SkinFileUpdate::NoUpdate
    }
}

/// What the frame loop should do about the skin after a polling cycle.
#[derive(Clone, Debug, PartialEq, Eq)]
pub enum SkinAction {
    KeepCurrent,
    ReloadFrom(Option<String>),
}

/// The action a skin-file update asks for: no update keeps the current
/// model; a modification or a self-deletion reloads from the configured
/// skin file; a creation reloads from the newly created file. A
/// self-deletion also drops the watch, but the reload decides the watch
/// anew in either case.
pub open spec fn skin_action_of(update: SkinFileUpdate, skinfile: Option<String>) -> SkinAction {
    match update {
        SkinFileUpdate::NoUpdate => SkinAction::KeepCurrent,
        SkinFileUpdate::Modified => SkinAction::ReloadFrom(skinfile),
        SkinFileUpdate::New(p) => SkinAction::ReloadFrom(Some(p)),
        SkinFileUpdate::Deleted => SkinAction::ReloadFrom(skinfile),
    }
}

/// Clone an optional path.
fn clone_opt_string(s: &Option<String>) -> (r: Option<String>)
    ensures
        r == *s,
{
    match s {
        Some(x) => Some(x.clone()),
        None => None,
    }
}

/// Decide what to do about the skin after one polling cycle.
pub fn skin_update_action(update: &SkinFileUpdate, skinfile: &Option<String>) -> (r: SkinAction)
    ensures
        r == skin_action_of(*update, *skinfile),
{
    match update {
        SkinFileUpdate::NoUpdate => SkinAction::KeepCurrent,
        SkinFileUpdate::Modified => SkinAction::ReloadFrom(clone_opt_string(skinfile)),
        SkinFileUpdate::New(p) => SkinAction::ReloadFrom(Some(p.clone())),
        SkinFileUpdate::Deleted => SkinAction::ReloadFrom(clone_opt_string(skinfile)),
    }
}

/// What a skin load comes out as: whether the embedded default image stands
/// in for the requested file, and whether a live watch remains on the file.
#[derive(Clone, Copy, Debug, PartialEq, Eq, Structural)]
pub struct SkinLoad {
    pub uses_default: bool,
    pub has_watch: bool,
}

/// The load decision as a value: the requested file's image is used exactly
/// when a file was requested, found on disk, and decoded cleanly; a watch
/// remains exactly when a file was requested, found, and the subscription
/// was created (a failed decode keeps the watch; a missing file never has
/// one).
pub open spec fn skin_load_plan_v(
    requested: bool,
    file_exists: bool,
    watch_created: bool,
    decode_ok: bool,
) -> SkinLoad {
    SkinLoad {
        uses_default: !(requested && file_exists && decode_ok),
        has_watch: requested && file_exists && watch_created,
    }
}

/// Decide what a skin load comes out as, from what the filesystem and the
/// decoder reported.
pub fn skin_load_plan(
    skinfile: &Option<String>,
    file_exists: bool,
    watch_created: bool,
    decode_ok: bool,
) -> (r: SkinLoad)
    ensures
        r == skin_load_plan_v(skinfile is Some, file_exists, watch_created, decode_ok),
{
    let requested: bool = match skinfile {
        Some(_) => true,
        None => false,
    };
    SkinLoad {
        uses_default: !(requested && file_exists && decode_ok),
        has_watch: requested && file_exists && watch_created,
    }
}

#[verifier::external_type_specification]
#[verifier::external_body]
pub struct ExDynamicImage(image::DynamicImage);

/// Whether `image::load_from_memory_with_format` decodes the given bytes as
/// a PNG: with the format fixed, the built-in decoder with the reader's
/// default limits reads nothing but the bytes, so success is a function of
/// the bytes alone.
pub uninterp spec fn png_decode_ok(bytes: Seq<u8>) -> bool;

/// Relies on image::load_from_memory_with_format with the PNG format: that
/// path selects the built-in PNG decoder directly, never the crate's
/// runtime-mutable hook registries (which only format guessing consults),
/// and returns Ok exactly when the bytes decode as a PNG — a pure function
/// of the bytes.
#[verifier::external_body]
fn decode_image(bytes: &Vec<u8>) -> (r: Option<image::DynamicImage>)
    ensures
        (r is Some) == png_decode_ok(bytes@),
{
    match image::load_from_memory_with_format(bytes.as_slice(), image::ImageFormat::Png) {
        Ok(img) => Some(img),
        Err(_) => None,
    }
}

/// Decode the skin image a load uses: the requested file's bytes when they
/// were read and decode cleanly as a PNG, else the embedded default's
/// bytes. The result is an image exactly when the chosen bytes decode; the
/// flag reports whether the default stood in.
pub fn load_skin_image(file_bytes: &Option<Vec<u8>>, default_bytes: &Vec<u8>) -> (r: (
    Option<image::DynamicImage>,
    bool,
))
    ensures
        r.1 == !(file_bytes matches Some(b) && png_decode_ok(b@)),
        !r.1 ==> r.0 is Some,
        r.1 ==> ((r.0 is Some) == png_decode_ok(default_bytes@)),
{
    match file_bytes {
        Some(b) => {
            let decoded = decode_image(b);
            match decoded {
                Some(img) => (Some(img), false),
                None => (decode_image(default_bytes), true),
            }
        },
        None => (decode_image(default_bytes), true),
    }
}

} // verus!
