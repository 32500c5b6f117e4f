//! Interchangeable visual consumers of beats, and the selection of the one
//! that is shown.
use vstd::prelude::*;

verus! {

/// A visual consumer, updated and drawn once per frame.
///
/// Each implementation says, through `spec_updated` and `spec_drawn`, which
/// states a scene may move to when it is updated or drawn.
pub trait Scene: Sized {
    /// Whether `next` is a state this scene may reach by one update.
    spec fn spec_updated(&self, next: &Self) -> bool;

    /// Whether `next` is a state this scene may reach by one draw.
    spec fn spec_drawn(&self, next: &Self) -> bool;

    fn update(&mut self)
        ensures
            old(self).spec_updated(final(self)),
    ;

    fn draw(&mut self)
        ensures
            old(self).spec_drawn(final(self)),
    ;
}

/// Holds the scenes and which of them is current.
pub struct SceneManager<S> {
    scenes: Vec<S>,
    current_scene: usize,
}

impl<S: Scene> SceneManager<S> {
    /// The scenes, in the order they were given.
    pub closed spec fn spec_scenes(&self) -> Seq<S> {
        self.scenes@
    }

    /// The index of the current scene.
    pub closed spec fn spec_current(&self) -> nat {
        self.current_scene as nat
    }

    /// The current scene is one of the scenes, unless there are none.
    pub closed spec fn wf(&self) -> bool {
        self.scenes@.len() == 0 || self.current_scene < self.scenes@.len()
    }

    /// A manager showing the first scene.
    pub fn new(scenes: Vec<S>) -> (m: SceneManager<S>)
        ensures
            m.wf(),
            m.spec_scenes() == scenes@,
            m.spec_current() == 0,
    {
        SceneManager { scenes, current_scene: 0 }
    }

    /// Makes scene `index` current; an index past the last scene is ignored.
    pub fn switch_scene(&mut self, index: usize)
        requires
            old(self).wf(),
        ensures
            final(self).wf(),
            final(self).spec_scenes() == old(self).spec_scenes(),
            final(self).spec_current() == if index < old(self).spec_scenes().len() {
                index as nat
            } else {
                old(self).spec_current()
            },
    {
        if index < self.scenes.len() {
            self.current_scene = index;
        }
    }

    /// The index of the current scene.
    pub fn current_scene(&self) -> (r: usize)
        ensures
            r == self.spec_current(),
    {
        self.current_scene
    }

    pub fn scene_count(&self) -> (r: usize)
        ensures
            r == self.spec_scenes().len(),
    {
        self.scenes.len()
    }

    /// The scene at `index`, if there is one.
    pub fn scene(&self, index: usize) -> (r: Option<&S>)
        ensures
            match r {
                Some(s) => index < self.spec_scenes().len() && *s == self.spec_scenes()[index as int],
                None => index >= self.spec_scenes().len(),
            },
    {
        if index < self.scenes.len() {
            Some(&self.scenes[index])
        } else {
            None
        }
    }

    /// Updates the current scene; the other scenes are left untouched.
    pub fn update(&mut self)
        requires
            old(self).wf(),
        ensures
            final(self).wf(),
            final(self).spec_current() == old(self).spec_current(),
            final(self).spec_scenes().len() == old(self).spec_scenes().len(),
            forall|j: int|
                0 <= j < old(self).spec_scenes().len() && j != old(self).spec_current()
                    ==> final(self).spec_scenes()[j] == old(self).spec_scenes()[j],
            old(self).spec_current() < old(self).spec_scenes().len() ==> old(
                self,
            ).spec_scenes()[old(self).spec_current() as int].spec_updated(
                &final(self).spec_scenes()[old(self).spec_current() as int],
            ),
    {
        let i = self.current_scene;
        if i < self.scenes.len() {
            self.scenes[i].update();
        }
    }

    /// Draws the current scene; the other scenes are left untouched.
    pub fn draw(&mut self)
        requires
            old(self).wf(),
        ensures
            final(self).wf(),
            final(self).spec_current() == old(self).spec_current(),
            final(self).spec_scenes().len() == old(self).spec_scenes().len(),
            forall|j: int|
                0 <= j < old(self).spec_scenes().len() && j != old(self).spec_current()
                    ==> final(self).spec_scenes()[j] == old(self).spec_scenes()[j],
            old(self).spec_current() < old(self).spec_scenes().len() ==> old(
                self,
            ).spec_scenes()[old(self).spec_current() as int].spec_drawn(
                &final(self).spec_scenes()[old(self).spec_current() as int],
            ),
    {
        let i = self.current_scene;
        if i < self.scenes.len() {
            self.scenes[i].draw();
        }
    }
}

} // verus!
