use vstd::prelude::*;

verus! {

/// One 64-bit register cell. It carries no type: the type written last decides
/// the bit layout, the type read decides how the bits are taken.
#[derive(Clone, Copy, Debug, PartialEq, Eq, Structural)]
pub struct Register {
    pub value: u64,
}

impl Register {
    pub fn new(value: u64) -> (r: Register)
        ensures
            r.value == value,
    {
        Register { value }
    }

    /// The cell read as a `T`.
    pub fn get<T: Registrant>(&self) -> (r: T)
        ensures
            r == T::from_cell(self.value),
    {
        T::from_reg(self)
    }

    /// Stores `value` in the cell.
    pub fn set<T: Registrant>(&mut self, value: T)
        ensures
            final(self).value == value.to_cell(),
    {
        value.to_reg(self);
    }
}

/// A scalar type that a register cell can hold. Narrower values take the low
/// bits: unsigned ones zero-extended, signed ones sign-extended.
pub trait Registrant: Sized {
    /// The value that a cell holds when read as this type.
    spec fn from_cell(cell: u64) -> Self;

    /// The cell that holds this value.
    spec fn to_cell(&self) -> u64;

    fn from_reg(reg: &Register) -> (r: Self)
        ensures
            r == Self::from_cell(reg.value),
    ;

    fn to_reg(&self, reg: &mut Register)
        ensures
            final(reg).value == self.to_cell(),
    ;
}

impl Registrant for u8 {
    open spec fn from_cell(cell: u64) -> u8 {
        cell as u8
    }

    open spec fn to_cell(&self) -> u64 {
        *self as u64
    }

    fn from_reg(reg: &Register) -> (r: u8) {
        reg.value as u8
    }

    fn to_reg(&self, reg: &mut Register) {
        reg.value = *self as u64;
    }
}

impl Registrant for u16 {
    open spec fn from_cell(cell: u64) -> u16 {
        cell as u16
    }

    open spec fn to_cell(&self) -> u64 {
        *self as u64
    }

    fn from_reg(reg: &Register) -> (r: u16) {
        reg.value as u16
    }

    fn to_reg(&self, reg: &mut Register) {
        reg.value = *self as u64;
    }
}

impl Registrant for u32 {
    open spec fn from_cell(cell: u64) -> u32 {
        cell as u32
    }

    open spec fn to_cell(&self) -> u64 {
        *self as u64
    }

    fn from_reg(reg: &Register) -> (r: u32) {
        reg.value as u32
    }

    fn to_reg(&self, reg: &mut Register) {
        reg.value = *self as u64;
    }
}

impl Registrant for u64 {
    open spec fn from_cell(cell: u64) -> u64 {
        cell as u64
    }

    open spec fn to_cell(&self) -> u64 {
        *self as u64
    }

    fn from_reg(reg: &Register) -> (r: u64) {
        reg.value as u64
    }

    fn to_reg(&self, reg: &mut Register) {
        reg.value = *self as u64;
    }
}

impl Registrant for i8 {
    open spec fn from_cell(cell: u64) -> i8 {
        cell as i8
    }

    open spec fn to_cell(&self) -> u64 {
        *self as u64
    }

    fn from_reg(reg: &Register) -> (r: i8) {
        reg.value as i8
    }

    fn to_reg(&self, reg: &mut Register) {
        reg.value = *self as u64;
    }
}

impl Registrant for i16 {
    open spec fn from_cell(cell: u64) -> i16 {
        cell as i16
    }

    open spec fn to_cell(&self) -> u64 {
        *self as u64
    }

    fn from_reg(reg: &Register) -> (r: i16) {
        reg.value as i16
    }

    fn to_reg(&self, reg: &mut Register) {
        reg.value = *self as u64;
    }
}

impl Registrant for i32 {
    open spec fn from_cell(cell: u64) -> i32 {
        cell as i32
    }

    open spec fn to_cell(&self) -> u64 {
        *self as u64
    }

    fn from_reg(reg: &Register) -> (r: i32) {
        reg.value as i32
    }

    fn to_reg(&self, reg: &mut Register) {
        reg.value = *self as u64;
    }
}

impl Registrant for i64 {
    open spec fn from_cell(cell: u64) -> i64 {
        cell as i64
    }

    open spec fn to_cell(&self) -> u64 {
        *self as u64
    }

    fn from_reg(reg: &Register) -> (r: i64) {
        reg.value as i64
    }

    fn to_reg(&self, reg: &mut Register) {
        reg.value = *self as u64;
    }
}

impl Registrant for usize {
    open spec fn from_cell(cell: u64) -> usize {
        cell as usize
    }

    open spec fn to_cell(&self) -> u64 {
        *self as u64
    }

    fn from_reg(reg: &Register) -> (r: usize) {
        reg.value as usize
    }

    fn to_reg(&self, reg: &mut Register) {
        reg.value = *self as u64;
    }
}

impl Registrant for isize {
    open spec fn from_cell(cell: u64) -> isize {
        cell as isize
    }

    open spec fn to_cell(&self) -> u64 {
        *self as u64
    }

    fn from_reg(reg: &Register) -> (r: isize) {
        reg.value as isize
    }

    fn to_reg(&self, reg: &mut Register) {
        reg.value = *self as u64;
    }
}

impl Registrant for bool {
    open spec fn from_cell(cell: u64) -> bool {
        cell != 0
    }

    open spec fn to_cell(&self) -> u64 {
        if *self {
            1
        } else {
            0
        }
    }

    fn from_reg(reg: &Register) -> (r: bool) {
        reg.value != 0
    }

    fn to_reg(&self, reg: &mut Register) {
        reg.value = if *self {
            1
        } else {
            0
        };
    }
}

/// The register file: a fixed number of cells, addressed by a 16-bit id.
pub struct Stack {
    cells: Vec<u64>,
}

impl View for Stack {
    type V = Seq<u64>;

    closed spec fn view(&self) -> Seq<u64> {
        self.cells@
    }
}

impl Stack {
    /// A register file of `capacity` cells, all zero.
    pub fn new(capacity: usize) -> (r: Stack)
        ensures
            r@ == Seq::new(capacity as nat, |i: int| 0u64),
    {
        let mut cells: Vec<u64> = Vec::new();
        let mut i: usize = 0;
        while i < capacity
            invariant
                i <= capacity,
                cells@ == Seq::new(i as nat, |j: int| 0u64),
            decreases capacity - i,
        {
            cells.push(0);
            i = i + 1;
        }
        Stack { cells }
    }

    pub fn capacity(&self) -> (r: usize)
        ensures
            r == self@.len(),
    {
        self.cells.len()
    }

    /// The cells, in id order.
    pub fn as_slice(&self) -> (r: &[u64])
        ensures
            r@ == self@,
    {
        self.cells.as_slice()
    }

    /// The register with id `id`, if the file has it.
    pub fn get_reg(&self, id: u16) -> (r: Option<Register>)
        ensures
            r.is_some() <==> (id as int) < self@.len(),
            r matches Some(reg) ==> reg.value == self@[id as int],
    {
        if (id as usize) < self.cells.len() {
            Some(Register { value: self.cells[id as usize] })
        } else {
            None
        }
    }

    /// Stores `value` in register `id`.
    pub fn set_cell(&mut self, id: u16, value: u64)
        requires
            (id as int) < old(self)@.len(),
        ensures
            final(self)@ == old(self)@.update(id as int, value),
    {
        self.cells.set(id as usize, value);
    }

    /// Register `id` read as a `T`.
    pub fn read_as<T: Registrant>(&self, id: u16) -> (r: Option<T>)
        ensures
            r.is_some() <==> (id as int) < self@.len(),
            r matches Some(v) ==> v == T::from_cell(self@[id as int]),
    {
        match self.get_reg(id) {
            Some(reg) => Some(reg.get::<T>()),
            None => None,
        }
    }

    /// Stores `value` in register `id`; `false`, and nothing changed, where there is no such register.
    pub fn write_as<T: Registrant>(&mut self, id: u16, value: T) -> (r: bool)
        ensures
            r <==> (id as int) < old(self)@.len(),
            r ==> final(self)@ == old(self)@.update(id as int, value.to_cell()),
            !r ==> final(self)@ == old(self)@,
    {
        if (id as usize) < self.cells.len() {
            let mut reg = Register { value: 0 };
            reg.set(value);
            self.cells.set(id as usize, reg.value);
            true
        } else {
            false
        }
    }
}

} // verus!
