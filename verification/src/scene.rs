//! A flat scene graph: an ordered list of named objects, each holding a
//! [`Transform`]. Lookup is a linear scan that returns the first object
//! whose name matches byte-exactly; duplicate names are not rejected.

use vstd::prelude::*;

use crate::math::Transform;
use vstd::string::StringExecFns;

verus! {

/// Represents an object within the 3D scene.
#[derive(Debug, Clone)]
pub struct SceneObject {
    pub name: String,
    pub transform: Transform,
}

impl SceneObject {
    /// Creates a new scene object with a given name and transform.
    pub fn new(name: String, transform: Transform) -> (obj: SceneObject)
        ensures
            obj.name == name,
            obj.transform == transform,
    {
        SceneObject { name, transform }
    }
}

/// Represents the entire 3D scene.
#[derive(Debug)]
pub struct Scene {
    pub objects: Vec<SceneObject>,
}

/// Some object in `objects` is named `name`.
pub open spec fn contains_name(objects: Seq<SceneObject>, name: Seq<char>) -> bool {
    exists|i: int| 0 <= i < objects.len() && objects[i].name@ == name
}

/// Index `i` holds the first object in `objects` named `name`.
pub open spec fn is_first_match(objects: Seq<SceneObject>, name: Seq<char>, i: int) -> bool {
    &&& 0 <= i < objects.len()
    &&& objects[i].name@ == name
    &&& forall|j: int| 0 <= j < i ==> objects[j].name@ != name
}

impl Scene {
    /// Creates a new, empty scene.
    pub fn new() -> (scene: Scene)
        ensures
            scene.objects@.len() == 0,
    {
        Scene { objects: Vec::new() }
    }

    /// Adds an object to the end of the scene, leaving the existing
    /// objects and their order untouched.
    pub fn add_object(&mut self, object: SceneObject)
        ensures
            final(self).objects@ == old(self).objects@.push(object),
    {
        self.objects.push(object);
    }

    /// Index of the first object with the given name, if any.
    fn find_index(&self, name: &str) -> (r: Option<usize>)
        ensures
            match r {
                Some(i) => is_first_match(self.objects@, name@, i as int),
                None => !contains_name(self.objects@, name@),
            },
    {
        let key = String::from_str(name);
        let n = self.objects.len();
        let mut i: usize = 0;
        while i < n
            invariant
                0 <= i <= n,
                n == self.objects@.len(),
                key@ == name@,
                forall|j: int| 0 <= j < i ==> self.objects@[j].name@ != name@,
            decreases n - i,
        {
            if self.objects[i].name == key {
                return Some(i);
            }
            i = i + 1;
        }
        None
    }

    /// Gets a reference to the first object with the given name
    /// (case-sensitive, exact match), or `None` if there is no match.
    pub fn get_object(&self, name: &str) -> (r: Option<&SceneObject>)
        ensures
            match r {
                Some(obj) => exists|i: int|
                    is_first_match(self.objects@, name@, i) && *obj == self.objects@[i],
                None => !contains_name(self.objects@, name@),
            },
    {
        match self.find_index(name) {
            Some(i) => Some(&self.objects[i]),
            None => None,
        }
    }

    /// Gets a mutable reference to the first object with the given name,
    /// or `None` (leaving the scene untouched) if there is no match.
    pub fn get_object_mut(&mut self, name: &str) -> (r: Option<&mut SceneObject>)
        ensures
            match r {
                Some(obj) => exists|i: int|
                    {
                        &&& is_first_match(old(self).objects@, name@, i)
                        &&& *obj == old(self).objects@[i]
                        &&& final(self).objects@ == old(self).objects@.update(i, *final(obj))
                    },
                None => {
                    &&& !contains_name(old(self).objects@, name@)
                    &&& *final(self) == *old(self)
                },
            },
    {
        match self.find_index(name) {
            Some(i) => Some(&mut self.objects[i]),
            None => None,
        }
    }
}

} // verus!
