//! The live update channel decisions.
//!
//! One streaming connection holds one watch on the configuration directory.
//! The surrounding process owns the OS watch mechanism and the transport; the
//! library decides what each outcome means: a setup failure terminates the
//! connection attempt with an error page, and every received filesystem
//! event — whatever it carries — becomes the same opaque update frame.

use vstd::prelude::*;

use crate::pages::PageResponse;
use crate::pages::render_error_page;
use crate::pages::spec_error_page;

verus! {

/// An opaque signal: the configuration directory's contents may have
/// changed. Deliberately carries no payload.
pub struct ChangeNotification;

/// The fixed payload of every update frame pushed to a client.
pub fn update_event_data() -> (r: String)
    ensures
        r@ == "update"@,
{
    "update".to_owned()
}

/// The frame data owed for one change notification: every notification maps
/// to the same update marker.
pub fn frame_for_notification(n: &ChangeNotification) -> (r: String)
    ensures
        r@ == "update"@,
{
    update_event_data()
}

/// How establishing the watch for one connection went.
pub enum WatchSetup {
    /// The watch is in place; the stream may start.
    Ready,
    /// The watch mechanism itself could not be initialized.
    InitFailed { cause: String },
    /// The watch could not be attached to the configuration directory.
    WatchFailed { cause: String },
    /// The event stream could not be opened over the watch.
    StreamFailed { cause: String },
}

/// The context string reported for each way the setup can fail.
pub open spec fn setup_context(s: WatchSetup) -> Seq<char> {
    match s {
        WatchSetup::Ready => Seq::<char>::empty(),
        WatchSetup::InitFailed { .. } => "setting up inotify"@,
        WatchSetup::WatchFailed { .. } => "setting up inotify for cfg path"@,
        WatchSetup::StreamFailed { .. } => "watcher into event stream"@,
    }
}

/// The underlying cause a failed setup carries.
pub open spec fn setup_cause(s: WatchSetup) -> Seq<char> {
    match s {
        WatchSetup::Ready => Seq::<char>::empty(),
        WatchSetup::InitFailed { cause } => cause@,
        WatchSetup::WatchFailed { cause } => cause@,
        WatchSetup::StreamFailed { cause } => cause@,
    }
}

/// What one connection attempt answers: nothing when the watch is ready and
/// the stream may start, otherwise a 500 error page carrying the setup
/// step's context and the underlying cause.
pub fn watch_setup_response(error_template: &str, setup: &WatchSetup) -> (r: Option<PageResponse>)
    ensures
        r is None <==> setup is Ready,
        r matches Some(p) ==> p.status == 500 && p.body@ == spec_error_page(
            error_template@,
            setup_context(*setup),
            setup_cause(*setup),
        ),
{
    match setup {
        WatchSetup::Ready => None,
        WatchSetup::InitFailed { cause } => Some(
            PageResponse {
                status: 500,
                body: render_error_page(error_template, "setting up inotify", cause.as_str()),
            },
        ),
        WatchSetup::WatchFailed { cause } => Some(
            PageResponse {
                status: 500,
                body: render_error_page(
                    error_template,
                    "setting up inotify for cfg path",
                    cause.as_str(),
                ),
            },
        ),
        WatchSetup::StreamFailed { cause } => Some(
            PageResponse {
                status: 500,
                body: render_error_page(error_template, "watcher into event stream", cause.as_str()),
            },
        ),
    }
}

} // verus!
