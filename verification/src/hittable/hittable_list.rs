//! The plain list of objects.

use vstd::prelude::*;
use crate::fixed::Fixed;
use crate::hittable::aabb::surrounding_box;
use crate::hittable::aabb::AABB;
use crate::hittable::HitRecord;
use crate::hittable::Hittables;
use crate::ray::Ray;
use crate::sampler::Sampler;
use crate::sampler::Stream;

verus! {

/// Objects in no particular order. A ray is tried on each in turn.
#[derive(Debug)]
pub struct HittableList {
    pub list: Vec<Hittables>,
}

impl HittableList {
    /// The list as a scene object.
    #[allow(clippy::new_ret_no_self)]
    pub fn new(list: Vec<Hittables>) -> (h: Hittables)
        ensures
            h == Hittables::HittableList(HittableList { list }),
    {
        Hittables::HittableList(HittableList { list })
    }

    /// The state of the scan after the first `n` objects: the nearest hit so
    /// far, the end of the interval that is left (the parameter of that hit,
    /// or `t_max` before any), and the sampler. Each object is tried on the
    /// interval from `t_min` to that end, and a hit replaces the one held.
    #[verifier::opaque]
    pub open spec fn scan_spec(
        &self,
        r: &Ray,
        t_min: Fixed,
        t_max: Fixed,
        sampler: Stream,
        n: nat,
    ) -> (Option<HitRecord<'_>>, Fixed, Stream)
        decreases self, n,
    {
        if n == 0 || n > self.list@.len() {
            (None, t_max, sampler)
        } else {
            let before = self.scan_spec(r, t_min, t_max, sampler, (n - 1) as nat);
            let tried = self.list@[n - 1].hit_spec(r, t_min, before.1, before.2);
            match tried.0 {
                Some(h) => (Some(h), h.t, tried.1),
                None => (before.0, before.1, tried.1),
            }
        }
    }

    pub open spec fn hit_spec(&self, r: &Ray, t_min: Fixed, t_max: Fixed, sampler: Stream) -> (
        Option<HitRecord<'_>>,
        Stream,
    )
        decreases self, self.list@.len() + 1,
    {
        let done = self.scan_spec(r, t_min, t_max, sampler, self.list@.len());
        (done.0, done.2)
    }

    /// The hit that a scan of the whole list ends with.
    pub fn hit(&self, r: &Ray, t_min: Fixed, t_max: Fixed, sampler: &mut Sampler) -> (rec: Option<
        HitRecord<'_>,
    >)
        ensures
            (rec, final(sampler)@) == self.hit_spec(r, t_min, t_max, old(sampler)@),
        decreases self,
    {
        let mut closest_so_far = t_max;
        let mut result: Option<HitRecord<'_>> = None;
        let mut i: usize = 0;
        proof {
            reveal_with_fuel(HittableList::scan_spec, 1);
        }
        while i < self.list.len()
            invariant
                i <= self.list@.len(),
                (result, closest_so_far, sampler@) == self.scan_spec(
                    r,
                    t_min,
                    t_max,
                    old(sampler)@,
                    i as nat,
                ),
            decreases self.list@.len() - i,
        {
            proof {
                reveal_with_fuel(HittableList::scan_spec, 1);
            }
            match self.list[i].hit(r, t_min, closest_so_far, sampler) {
                Some(h) => {
                    closest_so_far = h.t;
                    result = Some(h);
                },
                None => {},
            }
            i += 1;
        }
        result
    }

    /// The scan before any object, and the scan after one more.
    pub proof fn lemma_scan_unfold(
        &self,
        r: &Ray,
        t_min: Fixed,
        t_max: Fixed,
        sampler: Stream,
        n: nat,
    )
        ensures
            self.scan_spec(r, t_min, t_max, sampler, 0) == (None::<HitRecord>, t_max, sampler),
            0 < n <= self.list@.len() ==> self.scan_spec(r, t_min, t_max, sampler, n) == ({
                let before = self.scan_spec(r, t_min, t_max, sampler, (n - 1) as nat);
                let tried = self.list@[n - 1].hit_spec(r, t_min, before.1, before.2);
                match tried.0 {
                    Some(h) => (Some(h), h.t, tried.1),
                    None => (before.0, before.1, tried.1),
                }
            }),
    {
        reveal_with_fuel(HittableList::scan_spec, 1);
    }

    /// The union of the boxes of the first `n` objects; nothing where the list
    /// is empty or one of them has no box.
    pub open spec fn box_fold_spec(&self, t0: Fixed, t1: Fixed, n: nat) -> Option<AABB>
        decreases self, n,
    {
        if n == 0 || n > self.list@.len() {
            None
        } else if n == 1 {
            self.list@[0].bounding_box_spec(t0, t1)
        } else {
            match (
                self.box_fold_spec(t0, t1, (n - 1) as nat),
                self.list@[n - 1].bounding_box_spec(t0, t1),
            ) {
                (Some(a), Some(b)) => Some(surrounding_box(a, b)),
                _ => None,
            }
        }
    }

    pub open spec fn bounding_box_spec(&self, t0: Fixed, t1: Fixed) -> Option<AABB>
        decreases self, self.list@.len() + 1,
    {
        self.box_fold_spec(t0, t1, self.list@.len())
    }

    /// The union of the boxes of all the objects.
    pub fn bounding_box(&self, t0: Fixed, t1: Fixed) -> (b: Option<AABB>)
        ensures
            b == self.bounding_box_spec(t0, t1),
        decreases self,
    {
        if self.list.len() == 0 {
            return None;
        }
        let mut bounding_box: AABB = match self.list[0].bounding_box(t0, t1) {
            Some(temp_box) => temp_box,
            None => {
                proof {
                    self.lemma_box_fold_none(t0, t1, 1, self.list@.len());
                }
                return None;
            },
        };
        let mut i: usize = 1;
        while i < self.list.len()
            invariant
                1 <= i <= self.list@.len(),
                Some(bounding_box) == self.box_fold_spec(t0, t1, i as nat),
            decreases self.list@.len() - i,
        {
            match self.list[i].bounding_box(t0, t1) {
                Some(temp_box) => {
                    bounding_box = surrounding_box(bounding_box, temp_box);
                },
                None => {
                    proof {
                        self.lemma_box_fold_none(t0, t1, (i + 1) as nat, self.list@.len());
                    }
                    return None;
                },
            }
            i += 1;
        }
        Some(bounding_box)
    }

    /// Once a prefix of the list has no box, no longer prefix has one.
    proof fn lemma_box_fold_none(&self, t0: Fixed, t1: Fixed, n: nat, m: nat)
        requires
            1 <= n <= m <= self.list@.len(),
            self.box_fold_spec(t0, t1, n) is None,
        ensures
            self.box_fold_spec(t0, t1, m) is None,
        decreases m,
    {
        if n < m {
            self.lemma_box_fold_none(t0, t1, n, (m - 1) as nat);
        }
    }
}

} // verus!
