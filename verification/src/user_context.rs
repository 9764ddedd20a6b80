use vstd::prelude::*;

verus! {

/// Index of the stack pointer among the general registers.
pub const REG_SP: usize = 2;

/// Index of the thread pointer, which holds the thread-local storage base.
pub const REG_TP: usize = 4;

/// Index of the first argument register.
pub const REG_A0: usize = 10;

/// Index of the second argument register.
pub const REG_A1: usize = 11;

/// The saved user-mode state of a thread: the general registers, the
/// address it resumes at, and its status word.
#[derive(Clone, Copy, Debug)]
pub struct UserContext {
    pub regs: [usize; 32],
    pub sepc: usize,
    pub sstatus: usize,
}

impl UserContext {
    /// All registers zero.
    pub fn new() -> (c: UserContext)
        ensures
            forall|i: int| 0 <= i < 32 ==> #[trigger] c.regs@[i] == 0,
            c.sepc == 0,
            c.sstatus == 0,
    {
        let regs = [0usize; 32];
        UserContext { regs, sepc: 0, sstatus: 0 }
    }

    /// Sets general register `index`.
    fn set_reg(&mut self, index: usize, value: usize)
        requires
            index < 32,
        ensures
            final(self).regs@ == old(self).regs@.update(index as int, value),
            final(self).sepc == old(self).sepc,
            final(self).sstatus == old(self).sstatus,
    {
        self.regs[index] = value;
    }

    /// Sets the first argument the thread starts with.
    pub fn set_arg0(&mut self, value: usize)
        ensures
            final(self).regs@ == old(self).regs@.update(REG_A0 as int, value),
            final(self).sepc == old(self).sepc,
            final(self).sstatus == old(self).sstatus,
    {
        self.set_reg(REG_A0, value);
    }

    /// Sets the second argument the thread starts with.
    pub fn set_arg1(&mut self, value: usize)
        ensures
            final(self).regs@ == old(self).regs@.update(REG_A1 as int, value),
            final(self).sepc == old(self).sepc,
            final(self).sstatus == old(self).sstatus,
    {
        self.set_reg(REG_A1, value);
    }

    /// Sets the stack pointer.
    pub fn set_sp(&mut self, value: usize)
        ensures
            final(self).regs@ == old(self).regs@.update(REG_SP as int, value),
            final(self).sepc == old(self).sepc,
            final(self).sstatus == old(self).sstatus,
    {
        self.set_reg(REG_SP, value);
    }

    /// Sets the thread-local storage base.
    pub fn set_tls(&mut self, value: usize)
        ensures
            final(self).regs@ == old(self).regs@.update(REG_TP as int, value),
            final(self).sepc == old(self).sepc,
            final(self).sstatus == old(self).sstatus,
    {
        self.set_reg(REG_TP, value);
    }

    /// Sets the address the thread resumes at.
    pub fn set_next_ip(&mut self, value: usize)
        ensures
            final(self).regs@ == old(self).regs@,
            final(self).sepc == value,
            final(self).sstatus == old(self).sstatus,
    {
        self.sepc = value;
    }

    /// Reads general register `index`.
    pub fn get_reg(&self, index: usize) -> (v: usize)
        requires
            index < 32,
        ensures
            v == self.regs@[index as int],
    {
        self.regs[index]
    }
}

} // verus!
