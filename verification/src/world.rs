//! The arena-and-tag model of engine-owned objects. The core never reads
//! engine internals: it only knows each object's opaque tag, spawns objects
//! by tag — standing alone or as children of a tagged root — and destroys
//! whole tagged groups at mode boundaries. Destroying a tag destroys the
//! objects carrying it and every object owned by it: children die with
//! their root, so a group built under one root needs only the root's tag
//! registered for cleanup.

use vstd::prelude::*;

verus! {

/// The opaque grouping markers on engine-owned objects.
#[derive(Clone, Copy, PartialEq, Eq, Structural, Debug)]
pub enum Tag {
    /// An in-game sprite.
    MySprite,
    /// The main menu root.
    MainMenu,
    /// The main game camera.
    GameCamera,
    /// The "exit application" button.
    ExitButt,
    /// The "enter game" button.
    EnterButt,
    /// The always-alive interface camera.
    UiCamera,
    /// The in-game ground plane.
    Ground,
}

/// One engine-owned object as the core knows it: its own tag and, when it
/// was built into a tagged root's group, the owning root's tag.
#[derive(Clone, Copy, PartialEq, Eq, Structural, Debug)]
pub struct EngineObject {
    pub tag: Tag,
    /// The root group this object is a child of, if any; it dies when that
    /// tag is cleaned up.
    pub owner: Option<Tag>,
}

/// What the core knows of the engine's object arena: the live objects, in
/// spawn order.
pub struct World {
    pub objects: Vec<EngineObject>,
}

/// A root object carrying `t`, owned by nothing.
pub open spec fn root_obj(t: Tag) -> EngineObject {
    EngineObject { tag: t, owner: None }
}

/// An object carrying `t`, owned by the root group `r`.
pub open spec fn child_obj(t: Tag, r: Tag) -> EngineObject {
    EngineObject { tag: t, owner: Some(r) }
}

/// Does cleanup of `t` destroy this object? Yes when the object carries
/// the tag itself, or is owned by it — a child dies with its root.
pub open spec fn swept_by(o: EngineObject, t: Tag) -> bool {
    o.tag == t || o.owner == Some(t)
}

/// The arena after cleanup of `t`: exactly the objects cleanup does not
/// sweep, in spawn order.
pub open spec fn after_cleanup(objs: Seq<EngineObject>, t: Tag) -> Seq<EngineObject>
    decreases objs.len(),
{
    if objs.len() == 0 {
        Seq::empty()
    } else if swept_by(objs.last(), t) {
        after_cleanup(objs.drop_last(), t)
    } else {
        after_cleanup(objs.drop_last(), t).push(objs.last())
    }
}

/// How many live objects carry `t` as their own tag.
pub open spec fn count_tag(objs: Seq<EngineObject>, t: Tag) -> int
    decreases objs.len(),
{
    if objs.len() == 0 {
        0
    } else {
        count_tag(objs.drop_last(), t) + if objs.last().tag == t {
            1int
        } else {
            0int
        }
    }
}

impl World {
    /// An empty arena.
    pub fn new() -> (w: Self)
        ensures
            w.objects@ =~= Seq::<EngineObject>::empty(),
    {
        World { objects: Vec::new() }
    }

    /// Spawns one root object carrying `t`; the returned handle is its
    /// position in spawn order.
    pub fn spawn(&mut self, t: Tag) -> (handle: usize)
        ensures
            final(self).objects@ == old(self).objects@.push(root_obj(t)),
            handle == old(self).objects@.len(),
    {
        let handle = self.objects.len();
        self.objects.push(EngineObject { tag: t, owner: None });
        handle
    }

    /// Spawns one object carrying `t` as a child of the root group `r`: it
    /// is destroyed together with that root when `r` is cleaned up.
    pub fn spawn_child(&mut self, t: Tag, r: Tag) -> (handle: usize)
        ensures
            final(self).objects@ == old(self).objects@.push(child_obj(t, r)),
            handle == old(self).objects@.len(),
    {
        let handle = self.objects.len();
        self.objects.push(EngineObject { tag: t, owner: Some(r) });
        handle
    }

    /// How many live objects carry `t` as their own tag.
    pub fn count_tagged(&self, t: Tag) -> (n: usize)
        ensures
            n == count_tag(self.objects@, t),
    {
        let mut n: usize = 0;
        let mut i: usize = 0;
        while i < self.objects.len()
            invariant
                i <= self.objects@.len(),
                n == count_tag(self.objects@.subrange(0, i as int), t),
                n <= i,
            decreases self.objects@.len() - i,
        {
            let prefix = Ghost(self.objects@.subrange(0, i as int));
            if self.objects[i].tag == t {
                n = n + 1;
            }
            i = i + 1;
            proof {
                let now = self.objects@.subrange(0, i as int);
                assert(now.drop_last() =~= prefix@);
                assert(now.last() == self.objects@[i - 1]);
            }
        }
        proof {
            assert(self.objects@.subrange(0, self.objects@.len() as int) =~= self.objects@);
        }
        n
    }
}

/// Destroys every engine object carrying `tag` and, recursively with each
/// such root, every object it owns; all others survive in spawn order.
/// Used by exit hooks for mass cleanup at mode boundaries.
pub fn despawn_with(world: &mut World, tag: Tag)
    ensures
        final(world).objects@ == after_cleanup(old(world).objects@, tag),
{
    let mut kept: Vec<EngineObject> = Vec::new();
    let mut i: usize = 0;
    while i < world.objects.len()
        invariant
            i <= world.objects@.len(),
            kept@ == after_cleanup(world.objects@.subrange(0, i as int), tag),
        decreases world.objects@.len() - i,
    {
        let prefix = Ghost(world.objects@.subrange(0, i as int));
        let o = world.objects[i];
        let owned = match o.owner {
            Some(r) => r == tag,
            None => false,
        };
        if o.tag != tag && !owned {
            kept.push(o);
        }
        i = i + 1;
        proof {
            let now = world.objects@.subrange(0, i as int);
            assert(now.drop_last() =~= prefix@);
            assert(now.last() == world.objects@[i - 1]);
        }
    }
    proof {
        assert(world.objects@.subrange(0, world.objects@.len() as int) =~= world.objects@);
    }
    world.objects = kept;
}

/// Spawns one in-game sprite. The fixed-rate stage runs this while the
/// space key is held in game; the sprite's look and physics are the host
/// engine's business, selected by the tag alone.
pub fn spawn_sprite(world: &mut World)
    ensures
        final(world).objects@ == old(world).objects@.push(root_obj(Tag::MySprite)),
{
    world.spawn(Tag::MySprite);
}

/// Spawns the always-alive interface camera, once at startup.
pub fn setup_ui_camera(world: &mut World)
    ensures
        final(world).objects@ == old(world).objects@.push(root_obj(Tag::UiCamera)),
{
    world.spawn(Tag::UiCamera);
}

/// Enter hook of the in-game mode: spawns the game camera and the ground
/// plane.
pub fn setup_game_camera(world: &mut World)
    ensures
        final(world).objects@ == old(world).objects@.push(root_obj(Tag::GameCamera)).push(
            root_obj(Tag::Ground),
        ),
{
    world.spawn(Tag::GameCamera);
    world.spawn(Tag::Ground);
}

/// Enter hook of the menu mode: spawns the menu root, then its two buttons
/// as children of the root, in order (enter, then exit). Everything it
/// creates is the root or owned by the root's tag, so the paired exit hook
/// — cleanup of the menu tag — removes the whole menu.
pub fn setup_menu(world: &mut World)
    ensures
        final(world).objects@ == old(world).objects@.push(root_obj(Tag::MainMenu)).push(
            child_obj(Tag::EnterButt, Tag::MainMenu),
        ).push(child_obj(Tag::ExitButt, Tag::MainMenu)),
{
    world.spawn(Tag::MainMenu);
    world.spawn_child(Tag::EnterButt, Tag::MainMenu);
    world.spawn_child(Tag::ExitButt, Tag::MainMenu);
}

/// Law: cleanup by tag is exact — it destroys precisely the objects that
/// carry the tag or are owned by it: none survives, and the survivors are
/// exactly the other objects, in spawn order.
pub proof fn lemma_despawn_exact(objs: Seq<EngineObject>, t: Tag)
    ensures
        count_tag(after_cleanup(objs, t), t) == 0,
        forall|i: int|
            0 <= i < after_cleanup(objs, t).len() ==> !swept_by(
                #[trigger] after_cleanup(objs, t)[i],
                t,
            ),
        after_cleanup(objs, t) == objs.filter(|o: EngineObject| !swept_by(o, t)),
    decreases objs.len(),
{
    reveal(Seq::filter);
    if objs.len() == 0 {
        assert(objs =~= Seq::<EngineObject>::empty());
    } else {
        lemma_despawn_exact(objs.drop_last(), t);
        let rest = after_cleanup(objs.drop_last(), t);
        if !swept_by(objs.last(), t) {
            assert(rest.push(objs.last()).drop_last() =~= rest);
            assert(rest.push(objs.last()).last() == objs.last());
        }
    }
}

/// Law: cleanup of a tag that sweeps nothing leaves the arena untouched.
pub proof fn lemma_cleanup_noop(objs: Seq<EngineObject>, t: Tag)
    requires
        forall|i: int| 0 <= i < objs.len() ==> !swept_by(#[trigger] objs[i], t),
    ensures
        after_cleanup(objs, t) == objs,
    decreases objs.len(),
{
    if objs.len() > 0 {
        lemma_cleanup_noop(objs.drop_last(), t);
        assert(after_cleanup(objs.drop_last(), t).push(objs.last()) =~= objs);
    }
}

/// Law: the menu dies whole. Menu setup creates only the menu root and
/// objects owned by the root's tag, so the registered menu exit hook —
/// cleanup of the menu tag alone — removes everything the setup created:
/// a menu enter followed by a menu exit leaves exactly what cleaning the
/// menu tag from the prior arena leaves, and no stale button survives.
pub proof fn lemma_menu_cleanup_removes_whole_menu(objs: Seq<EngineObject>)
    ensures
        after_cleanup(
            objs.push(root_obj(Tag::MainMenu)).push(child_obj(Tag::EnterButt, Tag::MainMenu)).push(
                child_obj(Tag::ExitButt, Tag::MainMenu),
            ),
            Tag::MainMenu,
        ) == after_cleanup(objs, Tag::MainMenu),
{
    let a = objs.push(root_obj(Tag::MainMenu));
    let b = a.push(child_obj(Tag::EnterButt, Tag::MainMenu));
    let c = b.push(child_obj(Tag::ExitButt, Tag::MainMenu));
    assert(c.drop_last() =~= b);
    assert(b.drop_last() =~= a);
    assert(a.drop_last() =~= objs);
    assert(swept_by(c.last(), Tag::MainMenu));
    assert(after_cleanup(c, Tag::MainMenu) == after_cleanup(b, Tag::MainMenu));
    assert(after_cleanup(b, Tag::MainMenu) == after_cleanup(a, Tag::MainMenu));
    assert(after_cleanup(a, Tag::MainMenu) == after_cleanup(objs, Tag::MainMenu));
}

} // verus!
