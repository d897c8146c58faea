use vstd::prelude::*;

use super::traits::Action;
use crate::effect::{views_of, Effect, EffectSpec};

verus! {

/// Arguments of the action that moves a file.
pub struct MoveActionArgs {
    pub src: String,
    pub dest: String,
}

impl Clone for MoveActionArgs {
    fn clone(&self) -> (r: Self)
        ensures
            r.src@ == self.src@,
            r.dest@ == self.dest@,
    {
        MoveActionArgs { src: self.src.clone(), dest: self.dest.clone() }
    }
}

/// Moves `src` to `dest`, when `src` exists and `dest` does not.
pub struct MoveAction {
    args: MoveActionArgs,
}

impl MoveAction {
    pub closed spec fn src(&self) -> Seq<char> {
        self.args.src@
    }

    pub closed spec fn dest(&self) -> Seq<char> {
        self.args.dest@
    }

    pub fn new(args: MoveActionArgs) -> (r: Self)
        ensures
            r.src() == args.src@,
            r.dest() == args.dest@,
    {
        Self { args }
    }
}

impl Action for MoveAction {
    open spec fn watched_spec(&self) -> Seq<Seq<char>> {
        seq![self.src(), self.dest()]
    }

    open spec fn condition_spec(&self, present: Seq<bool>) -> bool {
        present[0] && !present[1]
    }

    open spec fn effect_spec(&self) -> EffectSpec {
        EffectSpec::Rename(self.src(), self.dest())
    }

    fn watched(&self) -> (r: Vec<String>) {
        let r = vec![self.args.src.clone(), self.args.dest.clone()];
        assert(views_of(r@) =~= self.watched_spec());
        r
    }

    fn condition(&self, present: &Vec<bool>) -> (r: bool) {
        present[0] && !present[1]
    }

    fn process(&self) -> (r: Effect) {
        Effect::Rename { src: self.args.src.clone(), dest: self.args.dest.clone() }
    }
}

} // verus!
