//! Rays: a start point and a direction.

use crate::vector::Vec3;
use vstd::prelude::*;

verus! {

/// A half-line from `start` along `dir`.
#[derive(Clone, Copy, Debug)]
pub struct Ray {
    start: Vec3,
    dir: Vec3,
}

impl Ray {
    pub closed spec fn start(self) -> Vec3 {
        self.start
    }

    pub closed spec fn dir(self) -> Vec3 {
        self.dir
    }

    pub fn new(start: Vec3, dir: Vec3) -> (r: Self)
        ensures
            r.start() == start,
            r.dir() == dir,
    {
        Self { start, dir }
    }

    pub fn get_start(&self) -> (r: Vec3)
        ensures
            r == self.start(),
    {
        self.start
    }

    pub fn get_dir(&self) -> (r: Vec3)
        ensures
            r == self.dir(),
    {
        self.dir
    }
}

} // verus!
