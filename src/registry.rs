//! The images this process can run, by logical name, and the build
//! specifications they come from.

use vstd::prelude::*;
use crate::image_build::{BuildError, BuildState};

verus! {

/// How to build the image of one logical name.
pub struct BuildSpec {
    pub name: String,
    /// Directory whose top-level files form the build context.
    pub context_dir: String,
    /// Path of the Dockerfile inside the build context.
    pub dockerfile: String,
}

/// An image built for a logical name.
pub struct Image {
    pub logical_name: String,
    /// The unique tag the image was built under.
    pub tag: String,
    /// The id the engine gave the image.
    pub engine_image_id: String,
}

/// Build specifications by logical name, in the order they were first
/// registered.
pub struct BuildPlan {
    specs: Vec<BuildSpec>,
}

/// Built images by logical name.
pub struct ImageRegistry {
    images: Vec<Image>,
}

/// A request for a named image that the registry does not hold.
pub struct UnknownImageError {
    pub name: String,
}

impl View for BuildPlan {
    type V = Seq<BuildSpec>;

    closed spec fn view(&self) -> Seq<BuildSpec> {
        self.specs@
    }
}

impl View for ImageRegistry {
    type V = Seq<Image>;

    closed spec fn view(&self) -> Seq<Image> {
        self.images@
    }
}

impl BuildPlan {
    /// No two specifications share a name.
    pub open spec fn wf(&self) -> bool {
        forall|i: int, j: int|
            0 <= i < j < self@.len() ==> (#[trigger] self@[i]).name@ != (#[trigger] self@[j]).name@
    }

    /// The specification registered under `name`, if any.
    pub open spec fn spec_for(&self, name: Seq<char>) -> Option<BuildSpec> {
        if exists|i: int| 0 <= i < self@.len() && (#[trigger] self@[i]).name@ == name {
            let i = choose|i: int| 0 <= i < self@.len() && (#[trigger] self@[i]).name@ == name;
            Some(self@[i])
        } else {
            None
        }
    }

    /// An empty plan.
    pub fn new() -> (r: BuildPlan)
        ensures
            r.wf(),
            r@.len() == 0,
    {
        BuildPlan { specs: Vec::new() }
    }

    fn position_of(&self, name: &String) -> (r: Option<usize>)
        ensures
            match r {
                Some(i) => i < self@.len() && self@[i as int].name@ == name@,
                None => forall|k: int| 0 <= k < self@.len() ==> (#[trigger] self@[k]).name@ != name@,
            },
    {
        let mut i: usize = 0;
        while i < self.specs.len()
            invariant
                0 <= i <= self.specs@.len(),
                forall|k: int| 0 <= k < i ==> (#[trigger] self.specs@[k]).name@ != name@,
            decreases self.specs@.len() - i,
        {
            if self.specs[i].name == *name {
                return Some(i);
            }
            i = i + 1;
        }
        None
    }

    /// Registers `entry`, replacing the specification of the same name; does
    /// not build.
    pub fn register(&mut self, entry: BuildSpec)
        requires
            old(self).wf(),
        ensures
            final(self).wf(),
            final(self).spec_for(entry.name@) == Some(entry),
            forall|n: Seq<char>| n != entry.name@ ==> final(self).spec_for(n) == old(self).spec_for(n),
    {
        let ghost name = entry.name@;
        let found = self.position_of(&entry.name);
        let ghost before = self@;
        if let Some(i) = found {
            self.specs.set(i, entry);
            proof {
                assert forall|n: Seq<char>| n != name implies self.spec_for(n) == old(self).spec_for(n) by {
                    if exists|k: int| 0 <= k < before.len() && (#[trigger] before[k]).name@ == n {
                        let k = choose|k: int| 0 <= k < before.len() && (#[trigger] before[k]).name@ == n;
                        assert(self@[k] == before[k]);
                    }
                    if exists|k: int| 0 <= k < self@.len() && (#[trigger] self@[k]).name@ == n {
                        let k = choose|k: int| 0 <= k < self@.len() && (#[trigger] self@[k]).name@ == n;
                        assert(before[k] == self@[k]);
                    }
                };
                assert(self@[i as int].name@ == name);
                assert(self@[i as int] == entry);
            }
        } else {
            self.specs.push(entry);
            proof {
                assert forall|n: Seq<char>| n != name implies self.spec_for(n) == old(self).spec_for(n) by {
                    if exists|k: int| 0 <= k < before.len() && (#[trigger] before[k]).name@ == n {
                        let k = choose|k: int| 0 <= k < before.len() && (#[trigger] before[k]).name@ == n;
                        assert(self@[k] == before[k]);
                    }
                    if exists|k: int| 0 <= k < self@.len() && (#[trigger] self@[k]).name@ == n {
                        let k = choose|k: int| 0 <= k < self@.len() && (#[trigger] self@[k]).name@ == n;
                        assert(before[k] == self@[k]);
                    }
                };
                assert(self@[before.len() as int].name@ == name);
            }
        }
    }

    /// The number of registered specifications.
    pub fn len(&self) -> (r: usize)
        ensures
            r == self@.len(),
    {
        self.specs.len()
    }

    /// The `i`-th registered specification.
    pub fn get(&self, i: usize) -> (r: &BuildSpec)
        requires
            i < self@.len(),
        ensures
            *r == self@[i as int],
    {
        &self.specs[i]
    }
}

impl ImageRegistry {
    /// At most one image per logical name, and every image has an engine id.
    pub open spec fn wf(&self) -> bool {
        &&& forall|i: int, j: int|
            0 <= i < j < self@.len() ==> (#[trigger] self@[i]).logical_name@ != (
            #[trigger] self@[j]).logical_name@
        &&& forall|i: int| 0 <= i < self@.len() ==> (#[trigger] self@[i]).engine_image_id@.len() > 0
    }

    /// The image registered under `name`, if any.
    pub open spec fn image_for(&self, name: Seq<char>) -> Option<Image> {
        if exists|i: int| 0 <= i < self@.len() && (#[trigger] self@[i]).logical_name@ == name {
            let i = choose|i: int| 0 <= i < self@.len() && (#[trigger] self@[i]).logical_name@ == name;
            Some(self@[i])
        } else {
            None
        }
    }

    /// An empty registry.
    pub fn new() -> (r: ImageRegistry)
        ensures
            r.wf(),
            r@.len() == 0,
    {
        ImageRegistry { images: Vec::new() }
    }

    fn position_of(&self, name: &String) -> (r: Option<usize>)
        ensures
            match r {
                Some(i) => i < self@.len() && self@[i as int].logical_name@ == name@,
                None => forall|k: int| 0 <= k < self@.len() ==> (#[trigger] self@[k]).logical_name@ != name@,
            },
    {
        let mut i: usize = 0;
        while i < self.images.len()
            invariant
                0 <= i <= self.images@.len(),
                forall|k: int| 0 <= k < i ==> (#[trigger] self.images@[k]).logical_name@ != name@,
            decreases self.images@.len() - i,
        {
            if self.images[i].logical_name == *name {
                return Some(i);
            }
            i = i + 1;
        }
        None
    }

    /// Puts `image` under its logical name, replacing an earlier image of
    /// that name. The earlier image is not removed from the engine.
    pub fn insert(&mut self, image: Image)
        requires
            old(self).wf(),
            image.engine_image_id@.len() > 0,
        ensures
            final(self).wf(),
            final(self).image_for(image.logical_name@) == Some(image),
            forall|n: Seq<char>|
                n != image.logical_name@ ==> final(self).image_for(n) == old(self).image_for(n),
    {
        let ghost name = image.logical_name@;
        let found = self.position_of(&image.logical_name);
        let ghost before = self@;
        if let Some(i) = found {
            self.images.set(i, image);
            proof {
                assert forall|n: Seq<char>| n != name implies self.image_for(n) == old(self).image_for(n) by {
                    if exists|k: int| 0 <= k < before.len() && (#[trigger] before[k]).logical_name@ == n {
                        let k = choose|k: int| 0 <= k < before.len() && (#[trigger] before[k]).logical_name@ == n;
                        assert(self@[k] == before[k]);
                    }
                    if exists|k: int| 0 <= k < self@.len() && (#[trigger] self@[k]).logical_name@ == n {
                        let k = choose|k: int| 0 <= k < self@.len() && (#[trigger] self@[k]).logical_name@ == n;
                        assert(before[k] == self@[k]);
                    }
                };
                assert(self@[i as int].logical_name@ == name);
            }
        } else {
            self.images.push(image);
            proof {
                assert forall|n: Seq<char>| n != name implies self.image_for(n) == old(self).image_for(n) by {
                    if exists|k: int| 0 <= k < before.len() && (#[trigger] before[k]).logical_name@ == n {
                        let k = choose|k: int| 0 <= k < before.len() && (#[trigger] before[k]).logical_name@ == n;
                        assert(self@[k] == before[k]);
                    }
                    if exists|k: int| 0 <= k < self@.len() && (#[trigger] self@[k]).logical_name@ == n {
                        let k = choose|k: int| 0 <= k < self@.len() && (#[trigger] self@[k]).logical_name@ == n;
                        assert(before[k] == self@[k]);
                    }
                };
                assert(self@[before.len() as int].logical_name@ == name);
            }
        }
    }

    /// Records the build of `name` under `tag` whose stream ended in
    /// `state`: on success the image is registered under `name`.
    pub fn record_build(&mut self, name: String, tag: String, state: BuildState) -> (r: Result<
        (),
        BuildError,
    >)
        requires
            old(self).wf(),
        ensures
            final(self).wf(),
            match state.outcome() {
                Ok(id) => if id@.len() > 0 {
                    &&& r is Ok
                    &&& final(self).image_for(name@) == Some(
                        Image { logical_name: name, tag, engine_image_id: id },
                    )
                    &&& forall|n: Seq<char>|
                        n != name@ ==> final(self).image_for(n) == old(self).image_for(n)
                } else {
                    r == Err::<(), BuildError>(BuildError::NoImageId) && *final(self) == *old(self)
                },
                Err(e) => r == Err::<(), BuildError>(e) && *final(self) == *old(self),
            },
    {
        match state.finish() {
            Ok(id) => {
                if id.as_str().is_empty() {
                    Err(BuildError::NoImageId)
                } else {
                    self.insert(Image { logical_name: name, tag, engine_image_id: id });
                    Ok(())
                }
            },
            Err(e) => Err(e),
        }
    }

    /// The image registered under `name`.
    pub fn lookup(&self, name: &str) -> (r: Result<&Image, UnknownImageError>)
        requires
            self.wf(),
        ensures
            match self.image_for(name@) {
                Some(image) => r == Ok::<&Image, UnknownImageError>(&image),
                None => r is Err && r->Err_0.name@ == name@,
            },
    {
        let key = String::from_str(name);
        match self.position_of(&key) {
            Some(i) => {
                proof {
                    let k = choose|k: int|
                        0 <= k < self@.len() && (#[trigger] self@[k]).logical_name@ == name@;
                    assert(k == i);
                }
                return Ok(&self.images[i]);
            },
            None => {},
        }
        Err(UnknownImageError { name: String::from_str(name) })
    }
}

/// The building of every image of a plan, one after the other, stopping at
/// the first failure.
pub struct BuildAll {
    plan: BuildPlan,
    registry: ImageRegistry,
    done: usize,
    error: Option<BuildError>,
}

impl BuildAll {
    /// The plan being built.
    pub closed spec fn plan(&self) -> Seq<BuildSpec> {
        self.plan@
    }

    /// How many specifications have been built.
    pub closed spec fn done(&self) -> nat {
        self.done as nat
    }

    /// The failure that stopped building, if any.
    pub closed spec fn error(&self) -> Option<BuildError> {
        self.error
    }

    /// Whether a build has failed.
    pub open spec fn failed(&self) -> bool {
        self.error() is Some
    }

    /// The images built so far.
    pub closed spec fn images(&self) -> ImageRegistry {
        self.registry
    }

    /// The images built so far are exactly those of the specifications
    /// built so far, one per name.
    pub closed spec fn inv(&self) -> bool {
        &&& self.plan.wf()
        &&& self.registry.wf()
        &&& self.done <= self.plan@.len()
        &&& forall|k: int|
            0 <= k < self.done ==> (#[trigger] self.registry.image_for(self.plan@[k].name@)) is Some
        &&& forall|n: Seq<char>|
            (#[trigger] self.registry.image_for(n)) is Some ==> exists|k: int|
                0 <= k < self.done && (#[trigger] self.plan@[k]).name@ == n
    }

    /// Starts building `plan`.
    pub fn new(plan: BuildPlan) -> (r: BuildAll)
        requires
            plan.wf(),
        ensures
            r.inv(),
            r.plan() == plan@,
            r.done() == 0,
            !r.failed(),
    {
        BuildAll { plan, registry: ImageRegistry::new(), done: 0, error: None }
    }

    /// The specification to build next, if building goes on.
    pub fn pending(&self) -> (r: Option<&BuildSpec>)
        requires
            self.inv(),
        ensures
            match r {
                Some(spec) => !self.failed() && self.done() < self.plan().len() && *spec
                    == self.plan()[self.done() as int],
                None => self.failed() || self.done() == self.plan().len(),
            },
    {
        if self.error.is_none() && self.done < self.plan.len() {
            Some(self.plan.get(self.done))
        } else {
            None
        }
    }

    /// Records the build of the pending specification under `tag`, whose
    /// stream ended in `state`.
    pub fn record(&mut self, tag: String, state: BuildState)
        requires
            old(self).inv(),
            !old(self).failed(),
            old(self).done() < old(self).plan().len(),
        ensures
            final(self).inv(),
            final(self).plan() == old(self).plan(),
            match state.outcome() {
                Ok(id) => if id@.len() > 0 {
                    &&& !final(self).failed()
                    &&& final(self).done() == old(self).done() + 1
                    &&& final(self).images().image_for(old(self).plan()[old(self).done() as int].name@)
                        == Some(
                        Image {
                            logical_name: old(self).plan()[old(self).done() as int].name,
                            tag,
                            engine_image_id: id,
                        },
                    )
                    &&& forall|n: Seq<char>|
                        n != old(self).plan()[old(self).done() as int].name@
                            ==> #[trigger] final(self).images().image_for(n)
                            == old(self).images().image_for(n)
                } else {
                    &&& final(self).error() == Some(BuildError::NoImageId)
                    &&& final(self).done() == old(self).done()
                    &&& final(self).images() == old(self).images()
                },
                Err(e) => {
                    &&& final(self).error() == Some(e)
                    &&& final(self).done() == old(self).done()
                    &&& final(self).images() == old(self).images()
                },
            },
    {
        // The count stays below the plan's length, which fits in a usize.
        let _total = self.plan.len();
        let name = self.plan.get(self.done).name.clone();
        let ghost before = self.registry;
        let ghost plan = self.plan@;
        let ghost d = self.done as int;
        match self.registry.record_build(name, tag, state) {
            Ok(()) => {
                proof {
                    assert forall|k: int| 0 <= k < d + 1 implies (#[trigger] self.registry.image_for(
                        plan[k].name@,
                    )) is Some by {
                        if k < d {
                            assert(plan[k].name@ != plan[d].name@);
                            assert(before.image_for(plan[k].name@) is Some);
                        }
                    };
                    assert forall|n: Seq<char>| (#[trigger] self.registry.image_for(n)) is Some implies exists|k: int|
                        0 <= k < d + 1 && (#[trigger] plan[k]).name@ == n by {
                        if n != plan[d].name@ {
                            assert(before.image_for(n) is Some);
                            let k = choose|k: int| 0 <= k < d && (#[trigger] plan[k]).name@ == n;
                            assert(0 <= k < d + 1 && plan[k].name@ == n);
                        } else {
                            assert(0 <= d < d + 1 && plan[d].name@ == n);
                        }
                    };
                }
                self.done = self.done + 1;
            },
            Err(e) => {
                self.error = Some(e);
            },
        }
    }

    /// The registry once building has stopped: the images of every
    /// specification of the plan, or the failure that stopped it.
    pub fn finish(self) -> (r: Result<ImageRegistry, BuildError>)
        requires
            self.inv(),
            self.failed() || self.done() == self.plan().len(),
        ensures
            r is Err <==> self.failed(),
            r is Ok ==> r->Ok_0 == self.images(),
            r is Err ==> Some(r->Err_0) == self.error(),
            r is Ok ==> {
                let reg = r->Ok_0;
                &&& reg.wf()
                &&& forall|k: int| 0 <= k < self.plan().len() ==> (#[trigger] reg.image_for(self.plan()[k].name@)) is Some
                &&& forall|n: Seq<char>| (#[trigger] reg.image_for(n)) is Some ==> exists|k: int|
                    0 <= k < self.plan().len() && (#[trigger] self.plan()[k]).name@ == n
            },
    {
        match self.error {
            Some(e) => Err(e),
            None => Ok(self.registry),
        }
    }
}

/// After a build of all of a plan that succeeded, every logical name of
/// the plan has exactly one image, with a non-empty engine id, and no
/// other name has any.
pub proof fn law_successful_build_all(b: &BuildAll, name: Seq<char>)
    requires
        b.inv(),
        !b.failed(),
        b.done() == b.plan().len(),
    ensures
        b.images().wf(),
        (exists|k: int| 0 <= k < b.plan().len() && (#[trigger] b.plan()[k]).name@ == name)
            <==> b.images().image_for(name) is Some,
        b.images().image_for(name) is Some ==> b.images().image_for(name)->0.engine_image_id@.len()
            > 0 && b.images().image_for(name)->0.logical_name@ == name,
        forall|i: int, j: int|
            0 <= i < b.images()@.len() && 0 <= j < b.images()@.len() && (#[trigger] b.images()@[i]).logical_name@
                == name && (#[trigger] b.images()@[j]).logical_name@ == name ==> i == j,
{
    if exists|k: int| 0 <= k < b.plan().len() && (#[trigger] b.plan()[k]).name@ == name {
        let k = choose|k: int| 0 <= k < b.plan().len() && (#[trigger] b.plan()[k]).name@ == name;
        assert(b.images().image_for(b.plan()[k].name@) is Some);
    }
}

/// In a well-formed registry each logical name has at most one image, and
/// every image carries a non-empty engine id.
pub proof fn law_one_image_per_name(registry: &ImageRegistry, name: Seq<char>)
    requires
        registry.wf(),
    ensures
        forall|i: int, j: int|
            0 <= i < registry@.len() && 0 <= j < registry@.len() && (#[trigger] registry@[i]).logical_name@
                == name && (#[trigger] registry@[j]).logical_name@ == name ==> i == j,
        registry.image_for(name) is Some ==> registry.image_for(name)->0.engine_image_id@.len() > 0,
{
}

} // verus!
