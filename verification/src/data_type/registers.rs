//! A register file: two operand registers, a result register, and the
//! parameters and returned values of a call.
use super::data::Data;
use super::data::SpecData;
use vstd::prelude::*;

verus! {

/// The registers.
pub struct Registers {
    pub v1: Option<Data>,
    pub v2: Option<Data>,
    pub res: Option<Data>,
    pub params: Vec<Data>,
    pub ret: Vec<Data>,
}

/// The mathematical model of a [`Registers`].
pub struct SpecRegisters {
    pub v1: Option<SpecData>,
    pub v2: Option<SpecData>,
    pub res: Option<SpecData>,
    pub params: Seq<SpecData>,
    pub ret: Seq<SpecData>,
}

impl View for Registers {
    type V = SpecRegisters;

    open spec fn view(&self) -> SpecRegisters {
        SpecRegisters {
            v1: self.v1.deep_view(),
            v2: self.v2.deep_view(),
            res: self.res.deep_view(),
            params: self.params.deep_view(),
            ret: self.ret.deep_view(),
        }
    }
}

impl SpecRegisters {
    /// The registers after `value` was loaded, if there is room for it. A
    /// pending result moves to the first operand register, if that is free,
    /// and the value becomes the second operand. Without a pending result
    /// the value goes to the first operand register that is free.
    pub open spec fn load(self, value: SpecData) -> Option<SpecRegisters> {
        if self.res is Some {
            if self.v1 is None {
                Some(SpecRegisters { v1: self.res, v2: Some(value), res: None, ..self })
            } else {
                None
            }
        } else if self.v1 is None {
            Some(SpecRegisters { v1: Some(value), ..self })
        } else if self.v2 is None {
            Some(SpecRegisters { v2: Some(value), ..self })
        } else {
            None
        }
    }
}

impl Registers {
    /// Registers that hold nothing.
    pub fn new() -> (registers: Self)
        ensures
            registers@ == (SpecRegisters {
                v1: None,
                v2: None,
                res: None,
                params: Seq::empty(),
                ret: Seq::empty(),
            }),
    {
        let params: Vec<Data> = Vec::new();
        let ret: Vec<Data> = Vec::new();
        assert(params.deep_view() =~= Seq::<SpecData>::empty());
        assert(ret.deep_view() =~= Seq::<SpecData>::empty());
        Registers { v1: None, v2: None, res: None, params, ret }
    }

    /// Loads `value` into an operand register. Where there is no room, the
    /// registers stay as they are.
    pub fn load(&mut self, value: Data) -> (loaded: Result<(), ()>)
        ensures
            old(self)@.load(value@) == match loaded {
                Ok(()) => Some(final(self)@),
                Err(()) => None,
            },
            loaded is Err ==> final(self)@ == old(self)@,
    {
        if self.res.is_some() {
            if self.v1.is_none() {
                self.v1 = self.res.take();
                self.v2 = Some(value);
                return Ok(());
            } else {
                return Err(());
            }
        }
        if self.v1.is_none() {
            self.v1 = Some(value);
        } else if self.v2.is_none() {
            self.v2 = Some(value);
        } else {
            return Err(());
        }
        Ok(())
    }

    /// Takes the pending result out of its register.
    pub fn unload(&mut self) -> (result: Option<Data>)
        ensures
            result.deep_view() == old(self)@.res,
            final(self)@ == (SpecRegisters { res: None, ..old(self)@ }),
    {
        self.res.take()
    }

    /// Sets the parameters of a call, unless parameters are waiting: then
    /// the registers stay as they are.
    pub fn set_params(&mut self, params: Vec<Data>) -> (set: Result<(), ()>)
        ensures
            set is Ok <==> old(self)@.params.len() == 0,
            set is Ok ==> final(self)@ == (SpecRegisters {
                params: params.deep_view(),
                ..old(self)@
            }),
            set is Err ==> final(self)@ == old(self)@,
    {
        if self.params.len() != 0 {
            return Err(());
        }
        self.params = params;
        Ok(())
    }

    /// Takes the returned values out.
    pub fn get_return(&mut self) -> (values: Vec<Data>)
        ensures
            values.deep_view() == old(self)@.ret,
            final(self)@ == (SpecRegisters { ret: Seq::empty(), ..old(self)@ }),
    {
        let mut values: Vec<Data> = Vec::new();
        std::mem::swap(&mut values, &mut self.ret);
        assert(self.ret.deep_view() =~= Seq::<SpecData>::empty());
        values
    }
}

} // verus!
