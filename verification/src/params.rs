//! The automation surface: a closed enumeration of the five automatable
//! parameters with fixed, stable integer ids (0..4, declaration order),
//! and the capability trait the host drives.

use vstd::prelude::*;

verus! {

#[derive(Clone, Copy, Debug, PartialEq, Eq, Hash, Structural)]
pub enum Parameter {
    MasterVolume,
    AttackTime,
    DecayTime,
    Sustain,
    ReleaseTime,
}

/// The stable automation id of each parameter: its declaration order.
pub open spec fn param_id(p: Parameter) -> int {
    match p {
        Parameter::MasterVolume => 0,
        Parameter::AttackTime => 1,
        Parameter::DecayTime => 2,
        Parameter::Sustain => 3,
        Parameter::ReleaseTime => 4,
    }
}

/// The parameter an integer id names, or failure for any id outside 0..4.
pub open spec fn param_from_id(id: int) -> Result<Parameter, ()> {
    if id == 0 {
        Ok(Parameter::MasterVolume)
    } else if id == 1 {
        Ok(Parameter::AttackTime)
    } else if id == 2 {
        Ok(Parameter::DecayTime)
    } else if id == 3 {
        Ok(Parameter::Sustain)
    } else if id == 4 {
        Ok(Parameter::ReleaseTime)
    } else {
        Err(())
    }
}

impl Parameter {
    /// Converts an arbitrary integer id to a parameter; fails, never
    /// panics and never substitutes a default, for any id outside 0..4.
    pub fn try_from(id: u32) -> (r: Result<Parameter, ()>)
        ensures
            r == param_from_id(id as int),
            r is Ok <==> id < 5,
    {
        if id == 0 {
            Ok(Parameter::MasterVolume)
        } else if id == 1 {
            Ok(Parameter::AttackTime)
        } else if id == 2 {
            Ok(Parameter::DecayTime)
        } else if id == 3 {
            Ok(Parameter::Sustain)
        } else if id == 4 {
            Ok(Parameter::ReleaseTime)
        } else {
            Err(())
        }
    }

    /// The parameter's stable integer id.
    pub fn id(&self) -> (id: u32)
        ensures
            id == param_id(*self),
    {
        match *self {
            Parameter::MasterVolume => 0,
            Parameter::AttackTime => 1,
            Parameter::DecayTime => 2,
            Parameter::Sustain => 3,
            Parameter::ReleaseTime => 4,
        }
    }
}

/// Ids map bijectively onto the five parameters: every parameter's id
/// converts back to it, and exactly the ids 0..4 convert to a parameter
/// at all.
pub proof fn lemma_param_ids_bijective(p: Parameter, id: int)
    ensures
        0 <= param_id(p) < 5,
        param_from_id(param_id(p)) == Ok::<Parameter, ()>(p),
        0 <= id < 5 ==> (param_from_id(id) matches Ok(q) && param_id(q) == id),
        !(0 <= id < 5) ==> param_from_id(id) is Err,
{
}

/// Settable/gettable numeric parameters addressed by enumerated ids:
/// the capability the host's automation drives. Values are raw `u64`
/// tunables; what each one means is up to the implementing type.
pub trait Parametric<P> {
    fn set_param(&mut self, param: &P, value: u64);

    fn get_param(&self, param: &P) -> u64;
}

} // verus!
