//! What a page that hosts a scene does when the scene asks to leave.

use vstd::prelude::*;

verus! {

/// What a scene asks for after a frame (the kinds of request a scene can make).
#[derive(Clone, Copy, Debug, PartialEq, Eq)]
pub enum SceneRequest {
    /// Keep showing the scene.
    Stay,
    /// Close the scene.
    Pop,
    /// Close the scene, handing a result to whoever opened it.
    PopWithResult,
    /// Put another scene in its place.
    Replace,
    /// Open another scene on top of it.
    Overlay,
    /// Any other request (such as leaving the program).
    Other,
}

/// What a page asks of the page stack.
#[derive(Clone, Copy, Debug, PartialEq, Eq)]
pub enum PageRequest {
    /// Keep showing the page.
    Stay,
    /// Close the page.
    Pop,
}

/// The reaction of the hosting page to a scene's request.
#[derive(Clone, Copy, Debug, PartialEq, Eq)]
pub struct HostStep {
    /// What the hosting page asks of the page stack.
    pub page: PageRequest,
    /// Whether the hosted scene is swapped for the one the scene handed over,
    /// and the new scene entered.
    pub swap_scene: bool,
}

/// The hosting page's reaction to a scene's request (see [`host_next_page`]).
pub open spec fn spec_host_next_page(request: SceneRequest) -> HostStep {
    HostStep {
        page: if request == SceneRequest::Pop || request == SceneRequest::PopWithResult {
            PageRequest::Pop
        } else {
            PageRequest::Stay
        },
        swap_scene: request == SceneRequest::Replace,
    }
}

/// The hosting page's reaction: a scene that closes (with or without a
/// result) closes the page; a scene that replaces itself is swapped in place
/// and the page stays; any other request keeps the page as it is.
pub fn host_next_page(request: SceneRequest) -> (r: HostStep)
    ensures
        r == spec_host_next_page(request),
{
    match request {
        SceneRequest::Pop => HostStep { page: PageRequest::Pop, swap_scene: false },
        SceneRequest::PopWithResult => HostStep { page: PageRequest::Pop, swap_scene: false },
        SceneRequest::Replace => HostStep { page: PageRequest::Stay, swap_scene: true },
        _ => HostStep { page: PageRequest::Stay, swap_scene: false },
    }
}

/// A page that shows a scene (a replay) inside the page stack. The scene
/// itself and its clock stay with the caller; the page keeps its label.
#[derive(Clone, Debug, PartialEq, Eq)]
pub struct SceneWrapperPage {
    /// The label the page was opened with.
    pub label: String,
}

impl SceneWrapperPage {
    /// A page hosting a scene, opened with the given label.
    pub fn new(label: String) -> (r: Self)
        ensures
            r.label == label,
    {
        SceneWrapperPage { label }
    }

    /// The title shown for the page: none, so that the hosted scene has the screen.
    pub fn title(&self) -> (r: String)
        ensures
            r@ == Seq::<char>::empty(),
    {
        String::new()
    }

    /// Whether the menu music may play over the page: never, the scene has its own.
    pub fn can_play_bgm(&self) -> (r: bool)
        ensures
            !r,
    {
        false
    }

    /// The page's reaction to what the hosted scene asks for ([`host_next_page`]).
    pub fn next_page(&self, request: SceneRequest) -> (r: HostStep)
        ensures
            r == spec_host_next_page(request),
    {
        host_next_page(request)
    }
}

} // verus!
