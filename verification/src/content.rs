//! Capturable content records and the content filter.
//!
//! Windows, displays and running applications arrive from content
//! enumeration as immutable records; a content filter scopes a capture
//! session either to one window or to a display less excluded
//! applications and excepted windows.

use vstd::prelude::*;

verus! {

use crate::geometry::Rect;

/// The window server's identifier for a window.
#[derive(Copy, Clone, Debug, PartialEq, Eq, Structural)]
pub struct CGWindowID(pub u32);

impl CGWindowID {
    pub fn raw(&self) -> (r: u32)
        ensures
            r == self.0,
    {
        self.0
    }
}

/// A running application, as content enumeration reports it.
#[derive(Clone, Debug)]
pub struct SCRunningApplication {
    pub pid: i32,
    pub application_name: String,
    pub bundle_identifier: String,
}

impl SCRunningApplication {
    pub fn new(pid: i32, application_name: String, bundle_identifier: String) -> (r:
        SCRunningApplication)
        ensures
            r.pid == pid,
            r.application_name@ == application_name@,
            r.bundle_identifier@ == bundle_identifier@,
    {
        SCRunningApplication { pid, application_name, bundle_identifier }
    }

    pub fn pid(&self) -> (r: i32)
        ensures
            r == self.pid,
    {
        self.pid
    }

    pub fn application_name(&self) -> (r: &String)
        ensures
            r@ == self.application_name@,
    {
        &self.application_name
    }

    pub fn bundle_identifier(&self) -> (r: &String)
        ensures
            r@ == self.bundle_identifier@,
    {
        &self.bundle_identifier
    }
}

/// A capturable window: its id, title, frame, and owning application.
#[derive(Clone, Debug)]
pub struct SCWindow {
    pub window_id: CGWindowID,
    pub title: String,
    pub frame: Rect,
    pub owning_application: SCRunningApplication,
}

impl SCWindow {
    pub fn new(
        window_id: CGWindowID,
        title: String,
        frame: Rect,
        owning_application: SCRunningApplication,
    ) -> (r: SCWindow)
        ensures
            r.window_id == window_id,
            r.title@ == title@,
            r.frame == frame,
            r.owning_application == owning_application,
    {
        SCWindow { window_id, title, frame, owning_application }
    }

    pub fn id(&self) -> (r: CGWindowID)
        ensures
            r == self.window_id,
    {
        self.window_id
    }

    pub fn title(&self) -> (r: &String)
        ensures
            r@ == self.title@,
    {
        &self.title
    }

    pub fn frame(&self) -> (r: Rect)
        ensures
            r == self.frame,
    {
        self.frame
    }

    pub fn owning_application(&self) -> (r: &SCRunningApplication)
        ensures
            r == self.owning_application,
    {
        &self.owning_application
    }
}

/// A capturable display: its raw display id and frame.
#[derive(Clone, Debug)]
pub struct SCDisplay {
    pub display_id: u32,
    pub frame: Rect,
}

impl SCDisplay {
    pub fn new(display_id: u32, frame: Rect) -> (r: SCDisplay)
        ensures
            r.display_id == display_id,
            r.frame == frame,
    {
        SCDisplay { display_id, frame }
    }

    pub fn raw_id(&self) -> (r: u32)
        ensures
            r == self.display_id,
    {
        self.display_id
    }

    pub fn frame(&self) -> (r: Rect)
        ensures
            r == self.frame,
    {
        self.frame
    }
}

/// The scope of a capture session: one desktop-independent window, or a
/// display minus excluded applications plus excepted windows.
#[derive(Clone, Debug)]
pub enum SCContentFilter {
    DesktopIndependentWindow { window_id: CGWindowID },
    DisplayExcludingApps {
        display_id: u32,
        excluded_application_pids: Vec<i32>,
        excepting_window_ids: Vec<u32>,
    },
}

impl SCContentFilter {
    /// Scopes a session to one window, wherever on the desktop it sits.
    pub fn new_with_desktop_independent_window(window: &SCWindow) -> (r: SCContentFilter)
        ensures
            r == (SCContentFilter::DesktopIndependentWindow { window_id: window.window_id }),
    {
        SCContentFilter::DesktopIndependentWindow { window_id: window.window_id }
    }

    /// Scopes a session to a display, excluding the given applications and
    /// excepting the given windows; the filter records their pids and
    /// window ids in order.
    pub fn new_with_display_excluding_apps_excepting_windows(
        display: &SCDisplay,
        excluded_applications: &Vec<SCRunningApplication>,
        excepting_windows: &Vec<SCWindow>,
    ) -> (r: SCContentFilter)
        ensures
            match r {
                SCContentFilter::DisplayExcludingApps {
                    display_id,
                    excluded_application_pids,
                    excepting_window_ids,
                } => {
                    &&& display_id == display.display_id
                    &&& excluded_application_pids@ == excluded_applications@.map_values(
                        |a: SCRunningApplication| a.pid,
                    )
                    &&& excepting_window_ids@ == excepting_windows@.map_values(
                        |w: SCWindow| w.window_id.0,
                    )
                },
                _ => false,
            },
    {
        let mut excluded_application_pids: Vec<i32> = Vec::new();
        let mut i: usize = 0;
        while i < excluded_applications.len()
            invariant
                i <= excluded_applications.len(),
                excluded_application_pids@ == excluded_applications@.take(i as int).map_values(
                    |a: SCRunningApplication| a.pid,
                ),
            decreases excluded_applications.len() - i,
        {
            excluded_application_pids.push(excluded_applications[i].pid);
            proof {
                assert(excluded_applications@.take(i + 1) == excluded_applications@.take(
                    i as int,
                ).push(excluded_applications@[i as int]));
            }
            i = i + 1;
        }
        let mut excepting_window_ids: Vec<u32> = Vec::new();
        let mut j: usize = 0;
        while j < excepting_windows.len()
            invariant
                j <= excepting_windows.len(),
                excepting_window_ids@ == excepting_windows@.take(j as int).map_values(
                    |w: SCWindow| w.window_id.0,
                ),
            decreases excepting_windows.len() - j,
        {
            excepting_window_ids.push(excepting_windows[j].window_id.0);
            proof {
                assert(excepting_windows@.take(j + 1) == excepting_windows@.take(j as int).push(
                    excepting_windows@[j as int],
                ));
            }
            j = j + 1;
        }
        proof {
            assert(excluded_applications@.take(excluded_applications@.len() as int)
                == excluded_applications@);
            assert(excepting_windows@.take(excepting_windows@.len() as int) == excepting_windows@);
        }
        SCContentFilter::DisplayExcludingApps {
            display_id: display.display_id,
            excluded_application_pids,
            excepting_window_ids,
        }
    }
}

} // verus!
