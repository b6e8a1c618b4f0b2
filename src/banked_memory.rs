use vstd::prelude::*;

verus! {

/// What a read of an address that no storage answers returns.
pub const UNDEFINED_READ: u8 = 0xff;

/// Relies on rand::random, used to fill fresh memory with noise as powered-on RAM holds:
/// nothing is promised of the value it returns.
pub assume_specification<T>[ rand::random::<T> ]() -> (r: T)
    where
        rand::distributions::Standard: rand::distributions::Distribution<T>,
;

/// Storage made of `bank_count` banks of `bank_size` bytes, one of which is selected.
pub struct BankedMemory {
    read_only: bool,
    bank_count: u16,
    bank_size: u16,
    current_bank: u16,
    memory_data: Vec<u8>,
    name: String,
}

impl BankedMemory {
    pub closed spec fn is_read_only(&self) -> bool {
        self.read_only
    }

    pub closed spec fn count(&self) -> u16 {
        self.bank_count
    }

    pub closed spec fn size(&self) -> u16 {
        self.bank_size
    }

    pub closed spec fn bank(&self) -> u16 {
        self.current_bank
    }

    pub closed spec fn data(&self) -> Seq<u8> {
        self.memory_data@
    }

    /// The number of bytes that the banks cover together.
    pub open spec fn capacity(&self) -> int {
        self.count() * self.size()
    }

    /// Every bank lies inside the buffer and the selected bank exists.
    pub open spec fn wf(&self) -> bool {
        &&& self.count() > 0
        &&& self.bank() < self.count()
        &&& self.data().len() >= self.capacity()
    }

    /// The byte at `addr` of bank `bank`; an offset past the bank reads as undefined.
    pub open spec fn bank_read(&self, bank: int, addr: u16) -> u8 {
        if addr >= self.size() {
            UNDEFINED_READ
        } else {
            self.data()[bank * self.size() + addr]
        }
    }

    /// What a read of `addr` returns in the selected bank.
    pub open spec fn read_spec(&self, addr: u16) -> u8 {
        self.bank_read(self.bank() as int, addr)
    }

    /// The bytes after writing `value` at `addr` of the selected bank: a read-only memory, or
    /// an offset past the bank, leaves them as they are.
    pub open spec fn data_after_write(&self, addr: u16, value: u8) -> Seq<u8> {
        if self.is_read_only() || addr >= self.size() {
            self.data()
        } else {
            self.data().update(self.bank() * self.size() + addr, value)
        }
    }

    /// Both have the same shape: read-only flag, bank count and bank size.
    pub open spec fn same_shape(&self, other: &BankedMemory) -> bool {
        &&& self.is_read_only() == other.is_read_only()
        &&& self.count() == other.count()
        &&& self.size() == other.size()
    }

    pub fn new_from_arr(
        read_only: bool,
        bank_count: u16,
        bank_size: u16,
        memory_data: Vec<u8>,
        name: String,
    ) -> (r: BankedMemory)
        requires
            bank_count > 0,
            memory_data@.len() >= bank_count * bank_size,
        ensures
            r.wf(),
            r.is_read_only() == read_only,
            r.count() == bank_count,
            r.size() == bank_size,
            r.bank() == 0,
            r.data() == memory_data@,
    {
        BankedMemory { read_only, bank_count, bank_size, current_bank: 0, memory_data, name }
    }

    /// A memory of `bank_count` banks of `bank_size` bytes, zeroed or filled with random bytes.
    pub fn new_empty(
        read_only: bool,
        bank_count: u16,
        bank_size: u16,
        fill_random: bool,
        name: String,
    ) -> (r: BankedMemory)
        requires
            bank_count > 0,
        ensures
            r.wf(),
            r.is_read_only() == read_only,
            r.count() == bank_count,
            r.size() == bank_size,
            r.bank() == 0,
            r.data().len() == bank_count * bank_size,
            !fill_random ==> forall|i: int| 0 <= i < r.data().len() ==> r.data()[i] == 0,
    {
        let total: usize = bank_offset(bank_count, bank_size, 0);
        let mut memory_data: Vec<u8> = Vec::new();
        let mut i: usize = 0;
        while i < total
            invariant
                i <= total,
                memory_data@.len() == i,
                !fill_random ==> forall|j: int| 0 <= j < i ==> memory_data@[j] == 0,
            decreases total - i,
        {
            let byte: u8 = if fill_random {
                rand::random::<u8>()
            } else {
                0
            };
            memory_data.push(byte);
            i = i + 1;
        }
        BankedMemory { read_only, bank_count, bank_size, current_bank: 0, memory_data, name }
    }

    /// Selects bank `new_bank`, taken modulo the bank count.
    pub fn switch_bank(&mut self, new_bank: u16)
        requires
            old(self).wf(),
        ensures
            final(self).wf(),
            final(self).same_shape(old(self)),
            final(self).data() == old(self).data(),
            final(self).bank() == new_bank % old(self).count(),
    {
        self.current_bank = new_bank % self.bank_count;
    }

    pub fn read_byte(&self, addr: u16) -> (r: u8)
        requires
            self.wf(),
        ensures
            r == self.read_spec(addr),
    {
        if addr >= self.bank_size {
            UNDEFINED_READ
        } else {
            proof {
                lemma_in_bank(self.current_bank as int, self.bank_count as int, self.bank_size as int, addr as int);
            }
            self.memory_data[bank_offset(self.current_bank, self.bank_size, addr)]
        }
    }

    pub fn write_byte(&mut self, addr: u16, value: u8)
        requires
            old(self).wf(),
        ensures
            final(self).wf(),
            final(self).same_shape(old(self)),
            final(self).bank() == old(self).bank(),
            final(self).data() == old(self).data_after_write(addr, value),
            !old(self).is_read_only() && addr < old(self).size() ==> final(self).read_spec(addr) == value,
            forall|a: u16| a != addr ==> #[trigger] final(self).read_spec(a) == old(self).read_spec(a),
    {
        if self.read_only {
            return;
        }
        if addr >= self.bank_size {
            return;
        }
        proof {
            lemma_in_bank(self.current_bank as int, self.bank_count as int, self.bank_size as int, addr as int);
        }
        let idx: usize = bank_offset(self.current_bank, self.bank_size, addr);
        self.memory_data.set(idx, value);
        assert forall|a: u16| a != addr implies #[trigger] self.read_spec(a) == old(self).read_spec(a) by {
            if a < self.bank_size {
                lemma_in_bank(self.current_bank as int, self.bank_count as int, self.bank_size as int, a as int);
            }
        }
    }

    pub fn get_bank_count(&self) -> (r: u16)
        ensures
            r == self.count(),
    {
        self.bank_count
    }
}

/// The buffer offset of `addr` in bank `bank`.
fn bank_offset(bank: u16, size: u16, addr: u16) -> (r: usize)
    ensures
        r == bank * size + addr,
{
    assert(bank * size <= 65535 * 65535) by (nonlinear_arith)
        requires
            bank <= 65535,
            size <= 65535,
            0 <= bank,
            0 <= size,
    ;
    ((bank as u32) * (size as u32) + addr as u32) as usize
}

proof fn lemma_in_bank(bank: int, count: int, size: int, addr: int)
    requires
        0 <= bank < count,
        0 <= addr < size,
    ensures
        0 <= bank * size + addr < count * size,
{
    assert(bank * size <= (count - 1) * size) by (nonlinear_arith)
        requires
            0 <= bank < count,
            0 <= size,
    ;
    assert((count - 1) * size + size == count * size) by (nonlinear_arith);
    assert(0 <= bank * size) by (nonlinear_arith)
        requires
            0 <= bank,
            0 <= size,
    ;
}

/// Selecting bank `b` and then reading gives what bank `b mod bank_count` holds at that
/// offset.
pub proof fn law_switch_then_read(before: BankedMemory, after: BankedMemory, b: u16, addr: u16)
    requires
        before.wf(),
        after.same_shape(&before),
        after.data() == before.data(),
        after.bank() == b % before.count(),
    ensures
        after.read_spec(addr) == before.bank_read((b % before.count()) as int, addr),
{
}

/// Writing to a read-only memory leaves its bytes as they were.
pub proof fn law_read_only_write(before: BankedMemory, addr: u16, value: u8)
    requires
        before.is_read_only(),
    ensures
        before.data_after_write(addr, value) == before.data(),
{
}

} // verus!
