//! Construction of a fixed-size group of constructible values as one unit.

use crate::error::ConstructError;
use crate::protocol::{Construct, ConstructProp, Resolved};
use bevy_ecs::world::EntityWorldMut;
use vstd::prelude::*;

verus! {

/// A group of constructible values built as a unit. Its props are the tuple of
/// the elements' props; the elements are constructed from left to right in
/// the same world, and the first failure ends the construction.
///
/// Plain data is constructible as it stands, tuples of plain data among it,
/// so a tuple cannot have a construction of its own; this wrapper has one.
pub struct ConstructTuple<T>(pub T);

/// The largest number of elements that a group can have.
pub const MAX_GROUP: usize = 12;

impl<T> ConstructTuple<T> {
    /// The group itself, as it is handed on for insertion.
    pub fn into_inner(self) -> (r: T)
        ensures
            r == self.0,
    {
        self.0
    }
}

impl Construct for ConstructTuple<()> {
    type Props = ();

    open spec fn outcome(world: EntityWorldMut<'_>, props: Self::Props) -> Result<
        Self,
        ConstructError,
    > {
        Ok(ConstructTuple(()))
    }

    open spec fn world_after(world: EntityWorldMut<'_>, props: Self::Props) -> EntityWorldMut<'_> {
        world
    }

    fn construct(_entity: &mut EntityWorldMut, _props: Self::Props) -> (r: Result<
        Self,
        ConstructError,
    >) {
        Ok(ConstructTuple(()))
    }
}

impl<C0: Construct> Construct for ConstructTuple<(C0,)> {
    type Props = (C0::Props,);

    open spec fn outcome(world: EntityWorldMut<'_>, props: Self::Props) -> Result<
        Self,
        ConstructError,
    > {
        let r0 = C0::outcome(world, props.0);
        if r0 is Err {
            Err(r0->Err_0)
        } else {
            Ok(ConstructTuple((r0->Ok_0,)))
        }
    }

    open spec fn world_after(world: EntityWorldMut<'_>, props: Self::Props) -> EntityWorldMut<'_> {
        let w1 = C0::world_after(world, props.0);
        w1
    }

    fn construct(_entity: &mut EntityWorldMut, _props: Self::Props) -> (r: Result<
        Self,
        ConstructError,
    >) {
        let (p0,) = _props;
        let v0 = match C0::construct(_entity, p0) {
            Ok(value) => value,
            Err(error) => return Err(error),
        };
        Ok(ConstructTuple((v0,)))
    }
}

impl<C0: Construct, C1: Construct> Construct for ConstructTuple<(C0, C1)> {
    type Props = (C0::Props, C1::Props);

    open spec fn outcome(world: EntityWorldMut<'_>, props: Self::Props) -> Result<
        Self,
        ConstructError,
    > {
        let r0 = C0::outcome(world, props.0);
        let w1 = C0::world_after(world, props.0);
        let r1 = C1::outcome(w1, props.1);
        if r0 is Err {
            Err(r0->Err_0)
        } else if r1 is Err {
            Err(r1->Err_0)
        } else {
            Ok(ConstructTuple((r0->Ok_0, r1->Ok_0)))
        }
    }

    open spec fn world_after(world: EntityWorldMut<'_>, props: Self::Props) -> EntityWorldMut<'_> {
        let r0 = C0::outcome(world, props.0);
        let w1 = C0::world_after(world, props.0);
        let w2 = C1::world_after(w1, props.1);
        if r0 is Err {
            w1
        } else {
            w2
        }
    }

    fn construct(_entity: &mut EntityWorldMut, _props: Self::Props) -> (r: Result<
        Self,
        ConstructError,
    >) {
        let (p0, p1) = _props;
        let v0 = match C0::construct(_entity, p0) {
            Ok(value) => value,
            Err(error) => return Err(error),
        };
        let v1 = match C1::construct(_entity, p1) {
            Ok(value) => value,
            Err(error) => return Err(error),
        };
        Ok(ConstructTuple((v0, v1)))
    }
}

impl<C0: Construct, C1: Construct, C2: Construct> Construct for ConstructTuple<(C0, C1, C2)> {
    type Props = (C0::Props, C1::Props, C2::Props);

    open spec fn outcome(world: EntityWorldMut<'_>, props: Self::Props) -> Result<
        Self,
        ConstructError,
    > {
        let r0 = C0::outcome(world, props.0);
        let w1 = C0::world_after(world, props.0);
        let r1 = C1::outcome(w1, props.1);
        let w2 = C1::world_after(w1, props.1);
        let r2 = C2::outcome(w2, props.2);
        if r0 is Err {
            Err(r0->Err_0)
        } else if r1 is Err {
            Err(r1->Err_0)
        } else if r2 is Err {
            Err(r2->Err_0)
        } else {
            Ok(ConstructTuple((r0->Ok_0, r1->Ok_0, r2->Ok_0)))
        }
    }

    open spec fn world_after(world: EntityWorldMut<'_>, props: Self::Props) -> EntityWorldMut<'_> {
        let r0 = C0::outcome(world, props.0);
        let w1 = C0::world_after(world, props.0);
        let r1 = C1::outcome(w1, props.1);
        let w2 = C1::world_after(w1, props.1);
        let w3 = C2::world_after(w2, props.2);
        if r0 is Err {
            w1
        } else if r1 is Err {
            w2
        } else {
            w3
        }
    }

    fn construct(_entity: &mut EntityWorldMut, _props: Self::Props) -> (r: Result<
        Self,
        ConstructError,
    >) {
        let (p0, p1, p2) = _props;
        let v0 = match C0::construct(_entity, p0) {
            Ok(value) => value,
            Err(error) => return Err(error),
        };
        let v1 = match C1::construct(_entity, p1) {
            Ok(value) => value,
            Err(error) => return Err(error),
        };
        let v2 = match C2::construct(_entity, p2) {
            Ok(value) => value,
            Err(error) => return Err(error),
        };
        Ok(ConstructTuple((v0, v1, v2)))
    }
}

impl<
    C0: Construct,
    C1: Construct,
    C2: Construct,
    C3: Construct,
> Construct for ConstructTuple<(C0, C1, C2, C3)> {
    type Props = (C0::Props, C1::Props, C2::Props, C3::Props);

    open spec fn outcome(world: EntityWorldMut<'_>, props: Self::Props) -> Result<
        Self,
        ConstructError,
    > {
        let r0 = C0::outcome(world, props.0);
        let w1 = C0::world_after(world, props.0);
        let r1 = C1::outcome(w1, props.1);
        let w2 = C1::world_after(w1, props.1);
        let r2 = C2::outcome(w2, props.2);
        let w3 = C2::world_after(w2, props.2);
        let r3 = C3::outcome(w3, props.3);
        if r0 is Err {
            Err(r0->Err_0)
        } else if r1 is Err {
            Err(r1->Err_0)
        } else if r2 is Err {
            Err(r2->Err_0)
        } else if r3 is Err {
            Err(r3->Err_0)
        } else {
            Ok(ConstructTuple((r0->Ok_0, r1->Ok_0, r2->Ok_0, r3->Ok_0)))
        }
    }

    open spec fn world_after(world: EntityWorldMut<'_>, props: Self::Props) -> EntityWorldMut<'_> {
        let r0 = C0::outcome(world, props.0);
        let w1 = C0::world_after(world, props.0);
        let r1 = C1::outcome(w1, props.1);
        let w2 = C1::world_after(w1, props.1);
        let r2 = C2::outcome(w2, props.2);
        let w3 = C2::world_after(w2, props.2);
        let w4 = C3::world_after(w3, props.3);
        if r0 is Err {
            w1
        } else if r1 is Err {
            w2
        } else if r2 is Err {
            w3
        } else {
            w4
        }
    }

    fn construct(_entity: &mut EntityWorldMut, _props: Self::Props) -> (r: Result<
        Self,
        ConstructError,
    >) {
        let (p0, p1, p2, p3) = _props;
        let v0 = match C0::construct(_entity, p0) {
            Ok(value) => value,
            Err(error) => return Err(error),
        };
        let v1 = match C1::construct(_entity, p1) {
            Ok(value) => value,
            Err(error) => return Err(error),
        };
        let v2 = match C2::construct(_entity, p2) {
            Ok(value) => value,
            Err(error) => return Err(error),
        };
        let v3 = match C3::construct(_entity, p3) {
            Ok(value) => value,
            Err(error) => return Err(error),
        };
        Ok(ConstructTuple((v0, v1, v2, v3)))
    }
}

impl<
    C0: Construct,
    C1: Construct,
    C2: Construct,
    C3: Construct,
    C4: Construct,
> Construct for ConstructTuple<(C0, C1, C2, C3, C4)> {
    type Props = (C0::Props, C1::Props, C2::Props, C3::Props, C4::Props);

    open spec fn outcome(world: EntityWorldMut<'_>, props: Self::Props) -> Result<
        Self,
        ConstructError,
    > {
        let r0 = C0::outcome(world, props.0);
        let w1 = C0::world_after(world, props.0);
        let r1 = C1::outcome(w1, props.1);
        let w2 = C1::world_after(w1, props.1);
        let r2 = C2::outcome(w2, props.2);
        let w3 = C2::world_after(w2, props.2);
        let r3 = C3::outcome(w3, props.3);
        let w4 = C3::world_after(w3, props.3);
        let r4 = C4::outcome(w4, props.4);
        if r0 is Err {
            Err(r0->Err_0)
        } else if r1 is Err {
            Err(r1->Err_0)
        } else if r2 is Err {
            Err(r2->Err_0)
        } else if r3 is Err {
            Err(r3->Err_0)
        } else if r4 is Err {
            Err(r4->Err_0)
        } else {
            Ok(ConstructTuple((r0->Ok_0, r1->Ok_0, r2->Ok_0, r3->Ok_0, r4->Ok_0)))
        }
    }

    open spec fn world_after(world: EntityWorldMut<'_>, props: Self::Props) -> EntityWorldMut<'_> {
        let r0 = C0::outcome(world, props.0);
        let w1 = C0::world_after(world, props.0);
        let r1 = C1::outcome(w1, props.1);
        let w2 = C1::world_after(w1, props.1);
        let r2 = C2::outcome(w2, props.2);
        let w3 = C2::world_after(w2, props.2);
        let r3 = C3::outcome(w3, props.3);
        let w4 = C3::world_after(w3, props.3);
        let w5 = C4::world_after(w4, props.4);
        if r0 is Err {
            w1
        } else if r1 is Err {
            w2
        } else if r2 is Err {
            w3
        } else if r3 is Err {
            w4
        } else {
            w5
        }
    }

    fn construct(_entity: &mut EntityWorldMut, _props: Self::Props) -> (r: Result<
        Self,
        ConstructError,
    >) {
        let (p0, p1, p2, p3, p4) = _props;
        let v0 = match C0::construct(_entity, p0) {
            Ok(value) => value,
            Err(error) => return Err(error),
        };
        let v1 = match C1::construct(_entity, p1) {
            Ok(value) => value,
            Err(error) => return Err(error),
        };
        let v2 = match C2::construct(_entity, p2) {
            Ok(value) => value,
            Err(error) => return Err(error),
        };
        let v3 = match C3::construct(_entity, p3) {
            Ok(value) => value,
            Err(error) => return Err(error),
        };
        let v4 = match C4::construct(_entity, p4) {
            Ok(value) => value,
            Err(error) => return Err(error),
        };
        Ok(ConstructTuple((v0, v1, v2, v3, v4)))
    }
}

impl<
    C0: Construct,
    C1: Construct,
    C2: Construct,
    C3: Construct,
    C4: Construct,
    C5: Construct,
> Construct for ConstructTuple<(C0, C1, C2, C3, C4, C5)> {
    type Props = (C0::Props, C1::Props, C2::Props, C3::Props, C4::Props, C5::Props);

    open spec fn outcome(world: EntityWorldMut<'_>, props: Self::Props) -> Result<
        Self,
        ConstructError,
    > {
        let r0 = C0::outcome(world, props.0);
        let w1 = C0::world_after(world, props.0);
        let r1 = C1::outcome(w1, props.1);
        let w2 = C1::world_after(w1, props.1);
        let r2 = C2::outcome(w2, props.2);
        let w3 = C2::world_after(w2, props.2);
        let r3 = C3::outcome(w3, props.3);
        let w4 = C3::world_after(w3, props.3);
        let r4 = C4::outcome(w4, props.4);
        let w5 = C4::world_after(w4, props.4);
        let r5 = C5::outcome(w5, props.5);
        if r0 is Err {
            Err(r0->Err_0)
        } else if r1 is Err {
            Err(r1->Err_0)
        } else if r2 is Err {
            Err(r2->Err_0)
        } else if r3 is Err {
            Err(r3->Err_0)
        } else if r4 is Err {
            Err(r4->Err_0)
        } else if r5 is Err {
            Err(r5->Err_0)
        } else {
            Ok(ConstructTuple((r0->Ok_0, r1->Ok_0, r2->Ok_0, r3->Ok_0, r4->Ok_0, r5->Ok_0)))
        }
    }

    open spec fn world_after(world: EntityWorldMut<'_>, props: Self::Props) -> EntityWorldMut<'_> {
        let r0 = C0::outcome(world, props.0);
        let w1 = C0::world_after(world, props.0);
        let r1 = C1::outcome(w1, props.1);
        let w2 = C1::world_after(w1, props.1);
        let r2 = C2::outcome(w2, props.2);
        let w3 = C2::world_after(w2, props.2);
        let r3 = C3::outcome(w3, props.3);
        let w4 = C3::world_after(w3, props.3);
        let r4 = C4::outcome(w4, props.4);
        let w5 = C4::world_after(w4, props.4);
        let w6 = C5::world_after(w5, props.5);
        if r0 is Err {
            w1
        } else if r1 is Err {
            w2
        } else if r2 is Err {
            w3
        } else if r3 is Err {
            w4
        } else if r4 is Err {
            w5
        } else {
            w6
        }
    }

    fn construct(_entity: &mut EntityWorldMut, _props: Self::Props) -> (r: Result<
        Self,
        ConstructError,
    >) {
        let (p0, p1, p2, p3, p4, p5) = _props;
        let v0 = match C0::construct(_entity, p0) {
            Ok(value) => value,
            Err(error) => return Err(error),
        };
        let v1 = match C1::construct(_entity, p1) {
            Ok(value) => value,
            Err(error) => return Err(error),
        };
        let v2 = match C2::construct(_entity, p2) {
            Ok(value) => value,
            Err(error) => return Err(error),
        };
        let v3 = match C3::construct(_entity, p3) {
            Ok(value) => value,
            Err(error) => return Err(error),
        };
        let v4 = match C4::construct(_entity, p4) {
            Ok(value) => value,
            Err(error) => return Err(error),
        };
        let v5 = match C5::construct(_entity, p5) {
            Ok(value) => value,
            Err(error) => return Err(error),
        };
        Ok(ConstructTuple((v0, v1, v2, v3, v4, v5)))
    }
}

impl<
    C0: Construct,
    C1: Construct,
    C2: Construct,
    C3: Construct,
    C4: Construct,
    C5: Construct,
    C6: Construct,
> Construct for ConstructTuple<(C0, C1, C2, C3, C4, C5, C6)> {
    type Props = (C0::Props, C1::Props, C2::Props, C3::Props, C4::Props, C5::Props, C6::Props);

    open spec fn outcome(world: EntityWorldMut<'_>, props: Self::Props) -> Result<
        Self,
        ConstructError,
    > {
        let r0 = C0::outcome(world, props.0);
        let w1 = C0::world_after(world, props.0);
        let r1 = C1::outcome(w1, props.1);
        let w2 = C1::world_after(w1, props.1);
        let r2 = C2::outcome(w2, props.2);
        let w3 = C2::world_after(w2, props.2);
        let r3 = C3::outcome(w3, props.3);
        let w4 = C3::world_after(w3, props.3);
        let r4 = C4::outcome(w4, props.4);
        let w5 = C4::world_after(w4, props.4);
        let r5 = C5::outcome(w5, props.5);
        let w6 = C5::world_after(w5, props.5);
        let r6 = C6::outcome(w6, props.6);
        if r0 is Err {
            Err(r0->Err_0)
        } else if r1 is Err {
            Err(r1->Err_0)
        } else if r2 is Err {
            Err(r2->Err_0)
        } else if r3 is Err {
            Err(r3->Err_0)
        } else if r4 is Err {
            Err(r4->Err_0)
        } else if r5 is Err {
            Err(r5->Err_0)
        } else if r6 is Err {
            Err(r6->Err_0)
        } else {
            Ok(
                ConstructTuple(
                    (
                        r0->Ok_0,
                        r1->Ok_0,
                        r2->Ok_0,
                        r3->Ok_0,
                        r4->Ok_0,
                        r5->Ok_0,
                        r6->Ok_0,
                    ),
                ),
            )
        }
    }

    open spec fn world_after(world: EntityWorldMut<'_>, props: Self::Props) -> EntityWorldMut<'_> {
        let r0 = C0::outcome(world, props.0);
        let w1 = C0::world_after(world, props.0);
        let r1 = C1::outcome(w1, props.1);
        let w2 = C1::world_after(w1, props.1);
        let r2 = C2::outcome(w2, props.2);
        let w3 = C2::world_after(w2, props.2);
        let r3 = C3::outcome(w3, props.3);
        let w4 = C3::world_after(w3, props.3);
        let r4 = C4::outcome(w4, props.4);
        let w5 = C4::world_after(w4, props.4);
        let r5 = C5::outcome(w5, props.5);
        let w6 = C5::world_after(w5, props.5);
        let w7 = C6::world_after(w6, props.6);
        if r0 is Err {
            w1
        } else if r1 is Err {
            w2
        } else if r2 is Err {
            w3
        } else if r3 is Err {
            w4
        } else if r4 is Err {
            w5
        } else if r5 is Err {
            w6
        } else {
            w7
        }
    }

    fn construct(_entity: &mut EntityWorldMut, _props: Self::Props) -> (r: Result<
        Self,
        ConstructError,
    >) {
        let (p0, p1, p2, p3, p4, p5, p6) = _props;
        let v0 = match C0::construct(_entity, p0) {
            Ok(value) => value,
            Err(error) => return Err(error),
        };
        let v1 = match C1::construct(_entity, p1) {
            Ok(value) => value,
            Err(error) => return Err(error),
        };
        let v2 = match C2::construct(_entity, p2) {
            Ok(value) => value,
            Err(error) => return Err(error),
        };
        let v3 = match C3::construct(_entity, p3) {
            Ok(value) => value,
            Err(error) => return Err(error),
        };
        let v4 = match C4::construct(_entity, p4) {
            Ok(value) => value,
            Err(error) => return Err(error),
        };
        let v5 = match C5::construct(_entity, p5) {
            Ok(value) => value,
            Err(error) => return Err(error),
        };
        let v6 = match C6::construct(_entity, p6) {
            Ok(value) => value,
            Err(error) => return Err(error),
        };
        Ok(ConstructTuple((v0, v1, v2, v3, v4, v5, v6)))
    }
}

impl<
    C0: Construct,
    C1: Construct,
    C2: Construct,
    C3: Construct,
    C4: Construct,
    C5: Construct,
    C6: Construct,
    C7: Construct,
> Construct for ConstructTuple<(C0, C1, C2, C3, C4, C5, C6, C7)> {
    type Props = (
        C0::Props,
        C1::Props,
        C2::Props,
        C3::Props,
        C4::Props,
        C5::Props,
        C6::Props,
        C7::Props,
    );

    open spec fn outcome(world: EntityWorldMut<'_>, props: Self::Props) -> Result<
        Self,
        ConstructError,
    > {
        let r0 = C0::outcome(world, props.0);
        let w1 = C0::world_after(world, props.0);
        let r1 = C1::outcome(w1, props.1);
        let w2 = C1::world_after(w1, props.1);
        let r2 = C2::outcome(w2, props.2);
        let w3 = C2::world_after(w2, props.2);
        let r3 = C3::outcome(w3, props.3);
        let w4 = C3::world_after(w3, props.3);
        let r4 = C4::outcome(w4, props.4);
        let w5 = C4::world_after(w4, props.4);
        let r5 = C5::outcome(w5, props.5);
        let w6 = C5::world_after(w5, props.5);
        let r6 = C6::outcome(w6, props.6);
        let w7 = C6::world_after(w6, props.6);
        let r7 = C7::outcome(w7, props.7);
        if r0 is Err {
            Err(r0->Err_0)
        } else if r1 is Err {
            Err(r1->Err_0)
        } else if r2 is Err {
            Err(r2->Err_0)
        } else if r3 is Err {
            Err(r3->Err_0)
        } else if r4 is Err {
            Err(r4->Err_0)
        } else if r5 is Err {
            Err(r5->Err_0)
        } else if r6 is Err {
            Err(r6->Err_0)
        } else if r7 is Err {
            Err(r7->Err_0)
        } else {
            Ok(
                ConstructTuple(
                    (
                        r0->Ok_0,
                        r1->Ok_0,
                        r2->Ok_0,
                        r3->Ok_0,
                        r4->Ok_0,
                        r5->Ok_0,
                        r6->Ok_0,
                        r7->Ok_0,
                    ),
                ),
            )
        }
    }

    open spec fn world_after(world: EntityWorldMut<'_>, props: Self::Props) -> EntityWorldMut<'_> {
        let r0 = C0::outcome(world, props.0);
        let w1 = C0::world_after(world, props.0);
        let r1 = C1::outcome(w1, props.1);
        let w2 = C1::world_after(w1, props.1);
        let r2 = C2::outcome(w2, props.2);
        let w3 = C2::world_after(w2, props.2);
        let r3 = C3::outcome(w3, props.3);
        let w4 = C3::world_after(w3, props.3);
        let r4 = C4::outcome(w4, props.4);
        let w5 = C4::world_after(w4, props.4);
        let r5 = C5::outcome(w5, props.5);
        let w6 = C5::world_after(w5, props.5);
        let r6 = C6::outcome(w6, props.6);
        let w7 = C6::world_after(w6, props.6);
        let w8 = C7::world_after(w7, props.7);
        if r0 is Err {
            w1
        } else if r1 is Err {
            w2
        } else if r2 is Err {
            w3
        } else if r3 is Err {
            w4
        } else if r4 is Err {
            w5
        } else if r5 is Err {
            w6
        } else if r6 is Err {
            w7
        } else {
            w8
        }
    }

    fn construct(_entity: &mut EntityWorldMut, _props: Self::Props) -> (r: Result<
        Self,
        ConstructError,
    >) {
        let (p0, p1, p2, p3, p4, p5, p6, p7) = _props;
        let v0 = match C0::construct(_entity, p0) {
            Ok(value) => value,
            Err(error) => return Err(error),
        };
        let v1 = match C1::construct(_entity, p1) {
            Ok(value) => value,
            Err(error) => return Err(error),
        };
        let v2 = match C2::construct(_entity, p2) {
            Ok(value) => value,
            Err(error) => return Err(error),
        };
        let v3 = match C3::construct(_entity, p3) {
            Ok(value) => value,
            Err(error) => return Err(error),
        };
        let v4 = match C4::construct(_entity, p4) {
            Ok(value) => value,
            Err(error) => return Err(error),
        };
        let v5 = match C5::construct(_entity, p5) {
            Ok(value) => value,
            Err(error) => return Err(error),
        };
        let v6 = match C6::construct(_entity, p6) {
            Ok(value) => value,
            Err(error) => return Err(error),
        };
        let v7 = match C7::construct(_entity, p7) {
            Ok(value) => value,
            Err(error) => return Err(error),
        };
        Ok(ConstructTuple((v0, v1, v2, v3, v4, v5, v6, v7)))
    }
}

impl<
    C0: Construct,
    C1: Construct,
    C2: Construct,
    C3: Construct,
    C4: Construct,
    C5: Construct,
    C6: Construct,
    C7: Construct,
    C8: Construct,
> Construct for ConstructTuple<(C0, C1, C2, C3, C4, C5, C6, C7, C8)> {
    type Props = (
        C0::Props,
        C1::Props,
        C2::Props,
        C3::Props,
        C4::Props,
        C5::Props,
        C6::Props,
        C7::Props,
        C8::Props,
    );

    open spec fn outcome(world: EntityWorldMut<'_>, props: Self::Props) -> Result<
        Self,
        ConstructError,
    > {
        let r0 = C0::outcome(world, props.0);
        let w1 = C0::world_after(world, props.0);
        let r1 = C1::outcome(w1, props.1);
        let w2 = C1::world_after(w1, props.1);
        let r2 = C2::outcome(w2, props.2);
        let w3 = C2::world_after(w2, props.2);
        let r3 = C3::outcome(w3, props.3);
        let w4 = C3::world_after(w3, props.3);
        let r4 = C4::outcome(w4, props.4);
        let w5 = C4::world_after(w4, props.4);
        let r5 = C5::outcome(w5, props.5);
        let w6 = C5::world_after(w5, props.5);
        let r6 = C6::outcome(w6, props.6);
        let w7 = C6::world_after(w6, props.6);
        let r7 = C7::outcome(w7, props.7);
        let w8 = C7::world_after(w7, props.7);
        let r8 = C8::outcome(w8, props.8);
        if r0 is Err {
            Err(r0->Err_0)
        } else if r1 is Err {
            Err(r1->Err_0)
        } else if r2 is Err {
            Err(r2->Err_0)
        } else if r3 is Err {
            Err(r3->Err_0)
        } else if r4 is Err {
            Err(r4->Err_0)
        } else if r5 is Err {
            Err(r5->Err_0)
        } else if r6 is Err {
            Err(r6->Err_0)
        } else if r7 is Err {
            Err(r7->Err_0)
        } else if r8 is Err {
            Err(r8->Err_0)
        } else {
            Ok(
                ConstructTuple(
                    (
                        r0->Ok_0,
                        r1->Ok_0,
                        r2->Ok_0,
                        r3->Ok_0,
                        r4->Ok_0,
                        r5->Ok_0,
                        r6->Ok_0,
                        r7->Ok_0,
                        r8->Ok_0,
                    ),
                ),
            )
        }
    }

    open spec fn world_after(world: EntityWorldMut<'_>, props: Self::Props) -> EntityWorldMut<'_> {
        let r0 = C0::outcome(world, props.0);
        let w1 = C0::world_after(world, props.0);
        let r1 = C1::outcome(w1, props.1);
        let w2 = C1::world_after(w1, props.1);
        let r2 = C2::outcome(w2, props.2);
        let w3 = C2::world_after(w2, props.2);
        let r3 = C3::outcome(w3, props.3);
        let w4 = C3::world_after(w3, props.3);
        let r4 = C4::outcome(w4, props.4);
        let w5 = C4::world_after(w4, props.4);
        let r5 = C5::outcome(w5, props.5);
        let w6 = C5::world_after(w5, props.5);
        let r6 = C6::outcome(w6, props.6);
        let w7 = C6::world_after(w6, props.6);
        let r7 = C7::outcome(w7, props.7);
        let w8 = C7::world_after(w7, props.7);
        let w9 = C8::world_after(w8, props.8);
        if r0 is Err {
            w1
        } else if r1 is Err {
            w2
        } else if r2 is Err {
            w3
        } else if r3 is Err {
            w4
        } else if r4 is Err {
            w5
        } else if r5 is Err {
            w6
        } else if r6 is Err {
            w7
        } else if r7 is Err {
            w8
        } else {
            w9
        }
    }

    fn construct(_entity: &mut EntityWorldMut, _props: Self::Props) -> (r: Result<
        Self,
        ConstructError,
    >) {
        let (p0, p1, p2, p3, p4, p5, p6, p7, p8) = _props;
        let v0 = match C0::construct(_entity, p0) {
            Ok(value) => value,
            Err(error) => return Err(error),
        };
        let v1 = match C1::construct(_entity, p1) {
            Ok(value) => value,
            Err(error) => return Err(error),
        };
        let v2 = match C2::construct(_entity, p2) {
            Ok(value) => value,
            Err(error) => return Err(error),
        };
        let v3 = match C3::construct(_entity, p3) {
            Ok(value) => value,
            Err(error) => return Err(error),
        };
        let v4 = match C4::construct(_entity, p4) {
            Ok(value) => value,
            Err(error) => return Err(error),
        };
        let v5 = match C5::construct(_entity, p5) {
            Ok(value) => value,
            Err(error) => return Err(error),
        };
        let v6 = match C6::construct(_entity, p6) {
            Ok(value) => value,
            Err(error) => return Err(error),
        };
        let v7 = match C7::construct(_entity, p7) {
            Ok(value) => value,
            Err(error) => return Err(error),
        };
        let v8 = match C8::construct(_entity, p8) {
            Ok(value) => value,
            Err(error) => return Err(error),
        };
        Ok(ConstructTuple((v0, v1, v2, v3, v4, v5, v6, v7, v8)))
    }
}

impl<
    C0: Construct,
    C1: Construct,
    C2: Construct,
    C3: Construct,
    C4: Construct,
    C5: Construct,
    C6: Construct,
    C7: Construct,
    C8: Construct,
    C9: Construct,
> Construct for ConstructTuple<(C0, C1, C2, C3, C4, C5, C6, C7, C8, C9)> {
    type Props = (
        C0::Props,
        C1::Props,
        C2::Props,
        C3::Props,
        C4::Props,
        C5::Props,
        C6::Props,
        C7::Props,
        C8::Props,
        C9::Props,
    );

    open spec fn outcome(world: EntityWorldMut<'_>, props: Self::Props) -> Result<
        Self,
        ConstructError,
    > {
        let r0 = C0::outcome(world, props.0);
        let w1 = C0::world_after(world, props.0);
        let r1 = C1::outcome(w1, props.1);
        let w2 = C1::world_after(w1, props.1);
        let r2 = C2::outcome(w2, props.2);
        let w3 = C2::world_after(w2, props.2);
        let r3 = C3::outcome(w3, props.3);
        let w4 = C3::world_after(w3, props.3);
        let r4 = C4::outcome(w4, props.4);
        let w5 = C4::world_after(w4, props.4);
        let r5 = C5::outcome(w5, props.5);
        let w6 = C5::world_after(w5, props.5);
        let r6 = C6::outcome(w6, props.6);
        let w7 = C6::world_after(w6, props.6);
        let r7 = C7::outcome(w7, props.7);
        let w8 = C7::world_after(w7, props.7);
        let r8 = C8::outcome(w8, props.8);
        let w9 = C8::world_after(w8, props.8);
        let r9 = C9::outcome(w9, props.9);
        if r0 is Err {
            Err(r0->Err_0)
        } else if r1 is Err {
            Err(r1->Err_0)
        } else if r2 is Err {
            Err(r2->Err_0)
        } else if r3 is Err {
            Err(r3->Err_0)
        } else if r4 is Err {
            Err(r4->Err_0)
        } else if r5 is Err {
            Err(r5->Err_0)
        } else if r6 is Err {
            Err(r6->Err_0)
        } else if r7 is Err {
            Err(r7->Err_0)
        } else if r8 is Err {
            Err(r8->Err_0)
        } else if r9 is Err {
            Err(r9->Err_0)
        } else {
            Ok(
                ConstructTuple(
                    (
                        r0->Ok_0,
                        r1->Ok_0,
                        r2->Ok_0,
                        r3->Ok_0,
                        r4->Ok_0,
                        r5->Ok_0,
                        r6->Ok_0,
                        r7->Ok_0,
                        r8->Ok_0,
                        r9->Ok_0,
                    ),
                ),
            )
        }
    }

    open spec fn world_after(world: EntityWorldMut<'_>, props: Self::Props) -> EntityWorldMut<'_> {
        let r0 = C0::outcome(world, props.0);
        let w1 = C0::world_after(world, props.0);
        let r1 = C1::outcome(w1, props.1);
        let w2 = C1::world_after(w1, props.1);
        let r2 = C2::outcome(w2, props.2);
        let w3 = C2::world_after(w2, props.2);
        let r3 = C3::outcome(w3, props.3);
        let w4 = C3::world_after(w3, props.3);
        let r4 = C4::outcome(w4, props.4);
        let w5 = C4::world_after(w4, props.4);
        let r5 = C5::outcome(w5, props.5);
        let w6 = C5::world_after(w5, props.5);
        let r6 = C6::outcome(w6, props.6);
        let w7 = C6::world_after(w6, props.6);
        let r7 = C7::outcome(w7, props.7);
        let w8 = C7::world_after(w7, props.7);
        let r8 = C8::outcome(w8, props.8);
        let w9 = C8::world_after(w8, props.8);
        let w10 = C9::world_after(w9, props.9);
        if r0 is Err {
            w1
        } else if r1 is Err {
            w2
        } else if r2 is Err {
            w3
        } else if r3 is Err {
            w4
        } else if r4 is Err {
            w5
        } else if r5 is Err {
            w6
        } else if r6 is Err {
            w7
        } else if r7 is Err {
            w8
        } else if r8 is Err {
            w9
        } else {
            w10
        }
    }

    fn construct(_entity: &mut EntityWorldMut, _props: Self::Props) -> (r: Result<
        Self,
        ConstructError,
    >) {
        let (p0, p1, p2, p3, p4, p5, p6, p7, p8, p9) = _props;
        let v0 = match C0::construct(_entity, p0) {
            Ok(value) => value,
            Err(error) => return Err(error),
        };
        let v1 = match C1::construct(_entity, p1) {
            Ok(value) => value,
            Err(error) => return Err(error),
        };
        let v2 = match C2::construct(_entity, p2) {
            Ok(value) => value,
            Err(error) => return Err(error),
        };
        let v3 = match C3::construct(_entity, p3) {
            Ok(value) => value,
            Err(error) => return Err(error),
        };
        let v4 = match C4::construct(_entity, p4) {
            Ok(value) => value,
            Err(error) => return Err(error),
        };
        let v5 = match C5::construct(_entity, p5) {
            Ok(value) => value,
            Err(error) => return Err(error),
        };
        let v6 = match C6::construct(_entity, p6) {
            Ok(value) => value,
            Err(error) => return Err(error),
        };
        let v7 = match C7::construct(_entity, p7) {
            Ok(value) => value,
            Err(error) => return Err(error),
        };
        let v8 = match C8::construct(_entity, p8) {
            Ok(value) => value,
            Err(error) => return Err(error),
        };
        let v9 = match C9::construct(_entity, p9) {
            Ok(value) => value,
            Err(error) => return Err(error),
        };
        Ok(ConstructTuple((v0, v1, v2, v3, v4, v5, v6, v7, v8, v9)))
    }
}

impl<
    C0: Construct,
    C1: Construct,
    C2: Construct,
    C3: Construct,
    C4: Construct,
    C5: Construct,
    C6: Construct,
    C7: Construct,
    C8: Construct,
    C9: Construct,
    C10: Construct,
> Construct for ConstructTuple<(C0, C1, C2, C3, C4, C5, C6, C7, C8, C9, C10)> {
    type Props = (
        C0::Props,
        C1::Props,
        C2::Props,
        C3::Props,
        C4::Props,
        C5::Props,
        C6::Props,
        C7::Props,
        C8::Props,
        C9::Props,
        C10::Props,
    );

    open spec fn outcome(world: EntityWorldMut<'_>, props: Self::Props) -> Result<
        Self,
        ConstructError,
    > {
        let r0 = C0::outcome(world, props.0);
        let w1 = C0::world_after(world, props.0);
        let r1 = C1::outcome(w1, props.1);
        let w2 = C1::world_after(w1, props.1);
        let r2 = C2::outcome(w2, props.2);
        let w3 = C2::world_after(w2, props.2);
        let r3 = C3::outcome(w3, props.3);
        let w4 = C3::world_after(w3, props.3);
        let r4 = C4::outcome(w4, props.4);
        let w5 = C4::world_after(w4, props.4);
        let r5 = C5::outcome(w5, props.5);
        let w6 = C5::world_after(w5, props.5);
        let r6 = C6::outcome(w6, props.6);
        let w7 = C6::world_after(w6, props.6);
        let r7 = C7::outcome(w7, props.7);
        let w8 = C7::world_after(w7, props.7);
        let r8 = C8::outcome(w8, props.8);
        let w9 = C8::world_after(w8, props.8);
        let r9 = C9::outcome(w9, props.9);
        let w10 = C9::world_after(w9, props.9);
        let r10 = C10::outcome(w10, props.10);
        if r0 is Err {
            Err(r0->Err_0)
        } else if r1 is Err {
            Err(r1->Err_0)
        } else if r2 is Err {
            Err(r2->Err_0)
        } else if r3 is Err {
            Err(r3->Err_0)
        } else if r4 is Err {
            Err(r4->Err_0)
        } else if r5 is Err {
            Err(r5->Err_0)
        } else if r6 is Err {
            Err(r6->Err_0)
        } else if r7 is Err {
            Err(r7->Err_0)
        } else if r8 is Err {
            Err(r8->Err_0)
        } else if r9 is Err {
            Err(r9->Err_0)
        } else if r10 is Err {
            Err(r10->Err_0)
        } else {
            Ok(
                ConstructTuple(
                    (
                        r0->Ok_0,
                        r1->Ok_0,
                        r2->Ok_0,
                        r3->Ok_0,
                        r4->Ok_0,
                        r5->Ok_0,
                        r6->Ok_0,
                        r7->Ok_0,
                        r8->Ok_0,
                        r9->Ok_0,
                        r10->Ok_0,
                    ),
                ),
            )
        }
    }

    open spec fn world_after(world: EntityWorldMut<'_>, props: Self::Props) -> EntityWorldMut<'_> {
        let r0 = C0::outcome(world, props.0);
        let w1 = C0::world_after(world, props.0);
        let r1 = C1::outcome(w1, props.1);
        let w2 = C1::world_after(w1, props.1);
        let r2 = C2::outcome(w2, props.2);
        let w3 = C2::world_after(w2, props.2);
        let r3 = C3::outcome(w3, props.3);
        let w4 = C3::world_after(w3, props.3);
        let r4 = C4::outcome(w4, props.4);
        let w5 = C4::world_after(w4, props.4);
        let r5 = C5::outcome(w5, props.5);
        let w6 = C5::world_after(w5, props.5);
        let r6 = C6::outcome(w6, props.6);
        let w7 = C6::world_after(w6, props.6);
        let r7 = C7::outcome(w7, props.7);
        let w8 = C7::world_after(w7, props.7);
        let r8 = C8::outcome(w8, props.8);
        let w9 = C8::world_after(w8, props.8);
        let r9 = C9::outcome(w9, props.9);
        let w10 = C9::world_after(w9, props.9);
        let w11 = C10::world_after(w10, props.10);
        if r0 is Err {
            w1
        } else if r1 is Err {
            w2
        } else if r2 is Err {
            w3
        } else if r3 is Err {
            w4
        } else if r4 is Err {
            w5
        } else if r5 is Err {
            w6
        } else if r6 is Err {
            w7
        } else if r7 is Err {
            w8
        } else if r8 is Err {
            w9
        } else if r9 is Err {
            w10
        } else {
            w11
        }
    }

    fn construct(_entity: &mut EntityWorldMut, _props: Self::Props) -> (r: Result<
        Self,
        ConstructError,
    >) {
        let (p0, p1, p2, p3, p4, p5, p6, p7, p8, p9, p10) = _props;
        let v0 = match C0::construct(_entity, p0) {
            Ok(value) => value,
            Err(error) => return Err(error),
        };
        let v1 = match C1::construct(_entity, p1) {
            Ok(value) => value,
            Err(error) => return Err(error),
        };
        let v2 = match C2::construct(_entity, p2) {
            Ok(value) => value,
            Err(error) => return Err(error),
        };
        let v3 = match C3::construct(_entity, p3) {
            Ok(value) => value,
            Err(error) => return Err(error),
        };
        let v4 = match C4::construct(_entity, p4) {
            Ok(value) => value,
            Err(error) => return Err(error),
        };
        let v5 = match C5::construct(_entity, p5) {
            Ok(value) => value,
            Err(error) => return Err(error),
        };
        let v6 = match C6::construct(_entity, p6) {
            Ok(value) => value,
            Err(error) => return Err(error),
        };
        let v7 = match C7::construct(_entity, p7) {
            Ok(value) => value,
            Err(error) => return Err(error),
        };
        let v8 = match C8::construct(_entity, p8) {
            Ok(value) => value,
            Err(error) => return Err(error),
        };
        let v9 = match C9::construct(_entity, p9) {
            Ok(value) => value,
            Err(error) => return Err(error),
        };
        let v10 = match C10::construct(_entity, p10) {
            Ok(value) => value,
            Err(error) => return Err(error),
        };
        Ok(ConstructTuple((v0, v1, v2, v3, v4, v5, v6, v7, v8, v9, v10)))
    }
}

impl<
    C0: Construct,
    C1: Construct,
    C2: Construct,
    C3: Construct,
    C4: Construct,
    C5: Construct,
    C6: Construct,
    C7: Construct,
    C8: Construct,
    C9: Construct,
    C10: Construct,
    C11: Construct,
> Construct for ConstructTuple<(C0, C1, C2, C3, C4, C5, C6, C7, C8, C9, C10, C11)> {
    type Props = (
        C0::Props,
        C1::Props,
        C2::Props,
        C3::Props,
        C4::Props,
        C5::Props,
        C6::Props,
        C7::Props,
        C8::Props,
        C9::Props,
        C10::Props,
        C11::Props,
    );

    open spec fn outcome(world: EntityWorldMut<'_>, props: Self::Props) -> Result<
        Self,
        ConstructError,
    > {
        let r0 = C0::outcome(world, props.0);
        let w1 = C0::world_after(world, props.0);
        let r1 = C1::outcome(w1, props.1);
        let w2 = C1::world_after(w1, props.1);
        let r2 = C2::outcome(w2, props.2);
        let w3 = C2::world_after(w2, props.2);
        let r3 = C3::outcome(w3, props.3);
        let w4 = C3::world_after(w3, props.3);
        let r4 = C4::outcome(w4, props.4);
        let w5 = C4::world_after(w4, props.4);
        let r5 = C5::outcome(w5, props.5);
        let w6 = C5::world_after(w5, props.5);
        let r6 = C6::outcome(w6, props.6);
        let w7 = C6::world_after(w6, props.6);
        let r7 = C7::outcome(w7, props.7);
        let w8 = C7::world_after(w7, props.7);
        let r8 = C8::outcome(w8, props.8);
        let w9 = C8::world_after(w8, props.8);
        let r9 = C9::outcome(w9, props.9);
        let w10 = C9::world_after(w9, props.9);
        let r10 = C10::outcome(w10, props.10);
        let w11 = C10::world_after(w10, props.10);
        let r11 = C11::outcome(w11, props.11);
        if r0 is Err {
            Err(r0->Err_0)
        } else if r1 is Err {
            Err(r1->Err_0)
        } else if r2 is Err {
            Err(r2->Err_0)
        } else if r3 is Err {
            Err(r3->Err_0)
        } else if r4 is Err {
            Err(r4->Err_0)
        } else if r5 is Err {
            Err(r5->Err_0)
        } else if r6 is Err {
            Err(r6->Err_0)
        } else if r7 is Err {
            Err(r7->Err_0)
        } else if r8 is Err {
            Err(r8->Err_0)
        } else if r9 is Err {
            Err(r9->Err_0)
        } else if r10 is Err {
            Err(r10->Err_0)
        } else if r11 is Err {
            Err(r11->Err_0)
        } else {
            Ok(
                ConstructTuple(
                    (
                        r0->Ok_0,
                        r1->Ok_0,
                        r2->Ok_0,
                        r3->Ok_0,
                        r4->Ok_0,
                        r5->Ok_0,
                        r6->Ok_0,
                        r7->Ok_0,
                        r8->Ok_0,
                        r9->Ok_0,
                        r10->Ok_0,
                        r11->Ok_0,
                    ),
                ),
            )
        }
    }

    open spec fn world_after(world: EntityWorldMut<'_>, props: Self::Props) -> EntityWorldMut<'_> {
        let r0 = C0::outcome(world, props.0);
        let w1 = C0::world_after(world, props.0);
        let r1 = C1::outcome(w1, props.1);
        let w2 = C1::world_after(w1, props.1);
        let r2 = C2::outcome(w2, props.2);
        let w3 = C2::world_after(w2, props.2);
        let r3 = C3::outcome(w3, props.3);
        let w4 = C3::world_after(w3, props.3);
        let r4 = C4::outcome(w4, props.4);
        let w5 = C4::world_after(w4, props.4);
        let r5 = C5::outcome(w5, props.5);
        let w6 = C5::world_after(w5, props.5);
        let r6 = C6::outcome(w6, props.6);
        let w7 = C6::world_after(w6, props.6);
        let r7 = C7::outcome(w7, props.7);
        let w8 = C7::world_after(w7, props.7);
        let r8 = C8::outcome(w8, props.8);
        let w9 = C8::world_after(w8, props.8);
        let r9 = C9::outcome(w9, props.9);
        let w10 = C9::world_after(w9, props.9);
        let r10 = C10::outcome(w10, props.10);
        let w11 = C10::world_after(w10, props.10);
        let w12 = C11::world_after(w11, props.11);
        if r0 is Err {
            w1
        } else if r1 is Err {
            w2
        } else if r2 is Err {
            w3
        } else if r3 is Err {
            w4
        } else if r4 is Err {
            w5
        } else if r5 is Err {
            w6
        } else if r6 is Err {
            w7
        } else if r7 is Err {
            w8
        } else if r8 is Err {
            w9
        } else if r9 is Err {
            w10
        } else if r10 is Err {
            w11
        } else {
            w12
        }
    }

    fn construct(_entity: &mut EntityWorldMut, _props: Self::Props) -> (r: Result<
        Self,
        ConstructError,
    >) {
        let (p0, p1, p2, p3, p4, p5, p6, p7, p8, p9, p10, p11) = _props;
        let v0 = match C0::construct(_entity, p0) {
            Ok(value) => value,
            Err(error) => return Err(error),
        };
        let v1 = match C1::construct(_entity, p1) {
            Ok(value) => value,
            Err(error) => return Err(error),
        };
        let v2 = match C2::construct(_entity, p2) {
            Ok(value) => value,
            Err(error) => return Err(error),
        };
        let v3 = match C3::construct(_entity, p3) {
            Ok(value) => value,
            Err(error) => return Err(error),
        };
        let v4 = match C4::construct(_entity, p4) {
            Ok(value) => value,
            Err(error) => return Err(error),
        };
        let v5 = match C5::construct(_entity, p5) {
            Ok(value) => value,
            Err(error) => return Err(error),
        };
        let v6 = match C6::construct(_entity, p6) {
            Ok(value) => value,
            Err(error) => return Err(error),
        };
        let v7 = match C7::construct(_entity, p7) {
            Ok(value) => value,
            Err(error) => return Err(error),
        };
        let v8 = match C8::construct(_entity, p8) {
            Ok(value) => value,
            Err(error) => return Err(error),
        };
        let v9 = match C9::construct(_entity, p9) {
            Ok(value) => value,
            Err(error) => return Err(error),
        };
        let v10 = match C10::construct(_entity, p10) {
            Ok(value) => value,
            Err(error) => return Err(error),
        };
        let v11 = match C11::construct(_entity, p11) {
            Ok(value) => value,
            Err(error) => return Err(error),
        };
        Ok(ConstructTuple((v0, v1, v2, v3, v4, v5, v6, v7, v8, v9, v10, v11)))
    }
}

/// The empty group is constructed in every world, without touching it.
pub proof fn lemma_empty_group_always_succeeds(world: EntityWorldMut<'_>)
    ensures
        <ConstructTuple<()> as Construct>::outcome(world, ()) == Ok::<
            ConstructTuple<()>,
            ConstructError,
        >(ConstructTuple(())),
        <ConstructTuple<()> as Construct>::world_after(world, ()) == world,
{
}

/// Where the first element of a pair fails, the pair fails with that very
/// error, whatever the second element would have done: it is never reached,
/// and the world is left as the first element left it.
pub proof fn lemma_first_failure_wins<A: Construct, B: Construct>(
    world: EntityWorldMut<'_>,
    first: A::Props,
    second: B::Props,
)
    requires
        A::outcome(world, first) is Err,
    ensures
        <ConstructTuple<(A, B)> as Construct>::outcome(world, (first, second)) is Err,
        <ConstructTuple<(A, B)> as Construct>::outcome(world, (first, second))->Err_0
            == A::outcome(world, first)->Err_0,
        <ConstructTuple<(A, B)> as Construct>::world_after(world, (first, second))
            == A::world_after(world, first),
{
}

/// Where the first element of a pair succeeds, the second is constructed in
/// the world that the first left behind, and its failure is the pair's.
pub proof fn lemma_second_runs_after_first<A: Construct, B: Construct>(
    world: EntityWorldMut<'_>,
    first: A::Props,
    second: B::Props,
)
    requires
        A::outcome(world, first) is Ok,
    ensures
        match B::outcome(A::world_after(world, first), second) {
            Ok(b) => <ConstructTuple<(A, B)> as Construct>::outcome(world, (first, second)) == Ok::<
                ConstructTuple<(A, B)>,
                ConstructError,
            >(ConstructTuple((A::outcome(world, first)->Ok_0, b))),
            Err(e) => <ConstructTuple<(A, B)> as Construct>::outcome(world, (first, second))
                == Err::<ConstructTuple<(A, B)>, ConstructError>(e),
        },
        <ConstructTuple<(A, B)> as Construct>::world_after(world, (first, second))
            == B::world_after(A::world_after(world, first), second),
{
}

/// Of two deferred fields that would both fail, the one declared first
/// decides: resolved in declaration order, the two give the first one's
/// error and leave the world as the first one left it, and the second is
/// never reached. Declared the other way round, the same two fields give the
/// other one's error.
pub proof fn lemma_first_declared_field_decides<A: Construct, B: Construct>(
    world: EntityWorldMut<'_>,
    a: ConstructProp<A>,
    b: ConstructProp<B>,
)
    requires
        a.outcome(world) is Err,
        b.outcome(world) is Err,
    ensures
        <ConstructTuple<(Resolved<A>, Resolved<B>)> as Construct>::outcome(world, (a, b)) == Err::<
            ConstructTuple<(Resolved<A>, Resolved<B>)>,
            ConstructError,
        >(a.outcome(world)->Err_0),
        <ConstructTuple<(Resolved<A>, Resolved<B>)> as Construct>::world_after(world, (a, b))
            == a.world_after(world),
        <ConstructTuple<(Resolved<B>, Resolved<A>)> as Construct>::outcome(world, (b, a)) == Err::<
            ConstructTuple<(Resolved<B>, Resolved<A>)>,
            ConstructError,
        >(b.outcome(world)->Err_0),
        <ConstructTuple<(Resolved<B>, Resolved<A>)> as Construct>::world_after(world, (b, a))
            == b.world_after(world),
{
}

/// Recursion goes on level by level. Take a type whose one field is deferred
/// and of type `D`, so that its construction is that of the group of that one
/// resolved field. A deferred field of that type, left at nested props whose
/// own field is left at nested props, runs `D`'s construction in the same
/// world: on success the innermost value is what `D` gave, a failure of `D`
/// comes out unchanged, and the world is left as `D` left it.
pub proof fn lemma_recursion_reaches_the_next_level<D: Construct>(
    world: EntityWorldMut<'_>,
    props: D::Props,
)
    ensures
        match D::outcome(world, props) {
            Ok(value) => ConstructProp::<ConstructTuple<(Resolved<D>,)>>::Props(
                (ConstructProp::<D>::Props(props),),
            ).outcome(world) == Ok::<ConstructTuple<(Resolved<D>,)>, ConstructError>(
                ConstructTuple((Resolved(value),)),
            ),
            Err(error) => ConstructProp::<ConstructTuple<(Resolved<D>,)>>::Props(
                (ConstructProp::<D>::Props(props),),
            ).outcome(world) == Err::<ConstructTuple<(Resolved<D>,)>, ConstructError>(error),
        },
        ConstructProp::<ConstructTuple<(Resolved<D>,)>>::Props(
            (ConstructProp::<D>::Props(props),),
        ).world_after(world) == D::world_after(world, props),
{
}

} // verus!
