use vstd::prelude::*;

verus! {

/// One entry of a block-device enumeration.
#[derive(Debug, Clone)]
pub struct BlockDevice {
    /// The kernel name, such as `sda1`.
    pub name: String,
    pub model: Option<String>,
    pub serial: Option<String>,
    pub uuid: Option<String>,
    /// Where the device is mounted, if it is.
    pub mountpoint: Option<String>,
    /// The total size, in bytes, as the enumeration printed it.
    pub size: String,
    /// The free space of its filesystem, in bytes, where it is reported.
    pub fsavail: Option<String>,
}

/// The stable identifier by which a configured item names a device.
#[derive(Debug, Clone, Copy, PartialEq, Eq, Structural)]
pub enum IdKind {
    Uuid,
    Serial,
}

/// The identifier of the given kind that a device carries.
pub open spec fn identifier(d: BlockDevice, kind: IdKind) -> Option<String> {
    match kind {
        IdKind::Uuid => d.uuid,
        IdKind::Serial => d.serial,
    }
}

/// The device carries `id` as its identifier of the given kind.
pub open spec fn carries(d: BlockDevice, kind: IdKind, id: Seq<char>) -> bool {
    identifier(d, kind) matches Some(s) && s@ == id
}

/// The devices that carry `id`, in enumeration order.
pub open spec fn matching(devs: Seq<BlockDevice>, kind: IdKind, id: Seq<char>) -> Seq<BlockDevice>
    decreases devs.len(),
{
    if devs.len() == 0 {
        Seq::empty()
    } else {
        let rest = matching(devs.drop_last(), kind, id);
        if carries(devs.last(), kind, id) {
            rest.push(devs.last())
        } else {
            rest
        }
    }
}

/// Whether a string holds the identifier `id`.
pub fn same_text(s: &String, id: &str) -> (r: bool)
    ensures
        r == (s@ == id@),
{
    let owned = String::from_str(id);
    *s == owned
}

/// A copy of an optional string.
pub fn copy_opt(s: &Option<String>) -> (r: Option<String>)
    ensures
        r == *s,
{
    match s {
        Some(v) => Some(v.clone()),
        None => None,
    }
}

impl BlockDevice {
    /// A field-by-field copy.
    pub fn duplicate(&self) -> (r: BlockDevice)
        ensures
            r == *self,
    {
        BlockDevice {
            name: self.name.clone(),
            model: copy_opt(&self.model),
            serial: copy_opt(&self.serial),
            uuid: copy_opt(&self.uuid),
            mountpoint: copy_opt(&self.mountpoint),
            size: self.size.clone(),
            fsavail: copy_opt(&self.fsavail),
        }
    }

    /// Whether the device carries `id` as its identifier of the given kind.
    pub fn carries(&self, kind: IdKind, id: &str) -> (r: bool)
        ensures
            r == carries(*self, kind, id@),
    {
        let field = match kind {
            IdKind::Uuid => &self.uuid,
            IdKind::Serial => &self.serial,
        };
        match field {
            Some(s) => same_text(s, id),
            None => false,
        }
    }
}

/// Copies of the devices that carry `id`, in enumeration order.
pub fn find_matches(devs: &[BlockDevice], kind: IdKind, id: &str) -> (r: Vec<BlockDevice>)
    ensures
        r@ == matching(devs@, kind, id@),
{
    let mut out: Vec<BlockDevice> = Vec::new();
    let mut i: usize = 0;
    while i < devs.len()
        invariant
            i <= devs@.len(),
            out@ == matching(devs@.take(i as int), kind, id@),
        decreases devs@.len() - i,
    {
        let d = &devs[i];
        assert(devs@.take(i as int + 1).drop_last() =~= devs@.take(i as int));
        if d.carries(kind, id) {
            out.push(d.duplicate());
        }
        i = i + 1;
    }
    assert(devs@.take(devs@.len() as int) =~= devs@);
    out
}

/// The outcome of resolving an identifier: when `Ok`, the single match if
/// there is one, `None` when nothing matches; `Err(())` when the identifier
/// is ambiguous.
pub open spec fn resolution(devs: Seq<BlockDevice>, kind: IdKind, id: Seq<char>) -> Result<Option<BlockDevice>, ()> {
    let m = matching(devs, kind, id);
    if m.len() == 0 {
        Ok(None)
    } else if m.len() == 1 {
        Ok(Some(m[0]))
    } else {
        Err(())
    }
}

/// Resolves an identifier against an enumeration: absent with no match,
/// the device with exactly one, ambiguous with two or more.
pub fn resolve(devs: &[BlockDevice], kind: IdKind, id: &str) -> (r: Result<Option<BlockDevice>, ()>)
    ensures
        r == resolution(devs@, kind, id@),
{
    let mut m = find_matches(devs, kind, id);
    if m.len() == 0 {
        Ok(None)
    } else if m.len() == 1 {
        Ok(Some(m.remove(0)))
    } else {
        Err(())
    }
}

/// The digits `0` to `9`.
pub open spec fn is_digit(c: char) -> bool {
    '0' <= c <= '9'
}

/// A non-empty run of decimal digits.
pub open spec fn all_digits(s: Seq<char>) -> bool {
    s.len() > 0 && forall|i: int| 0 <= i < s.len() ==> is_digit(#[trigger] s[i])
}

/// The number that a run of decimal digits writes.
pub open spec fn decimal_value(s: Seq<char>) -> nat
    decreases s.len(),
{
    if s.len() == 0 {
        0
    } else {
        decimal_value(s.drop_last()) * 10 + ((s.last() as int - '0' as int) as nat)
    }
}

proof fn lemma_decimal_monotone(s: Seq<char>, i: int)
    requires
        0 <= i <= s.len(),
        forall|k: int| 0 <= k < s.len() ==> is_digit(#[trigger] s[k]),
    ensures
        decimal_value(s.take(i)) <= decimal_value(s),
    decreases s.len() - i,
{
    if i < s.len() {
        lemma_decimal_monotone(s, i + 1);
        assert(s.take(i + 1).drop_last() =~= s.take(i));
        assert(is_digit(s[i]));
    } else {
        assert(s.take(i) =~= s);
    }
}

const U64_TENTH: u64 = 1844674407370955161;

/// The byte count that a text writes in decimal digits, where it fits in 64 bits.
pub open spec fn bytes_of(s: Seq<char>) -> Option<u64> {
    if all_digits(s) && decimal_value(s) <= u64::MAX {
        Some(decimal_value(s) as u64)
    } else {
        None
    }
}

/// A byte count that an enumeration may leave out.
pub open spec fn opt_bytes_of(s: Option<String>) -> Option<u64> {
    match s {
        Some(t) => bytes_of(t@),
        None => None,
    }
}

/// Reads a byte count written in decimal digits; `None` for any other text
/// and for a count that does not fit in 64 bits.
pub fn parse_bytes(s: &str) -> (r: Option<u64>)
    ensures
        r == bytes_of(s@),
{
    let n = s.unicode_len();
    if n == 0 {
        return None;
    }
    let mut acc: u64 = 0;
    let mut i: usize = 0;
    while i < n
        invariant
            n == s@.len(),
            i <= n,
            forall|k: int| 0 <= k < i ==> is_digit(#[trigger] s@[k]),
            acc == decimal_value(s@.take(i as int)),
        decreases n - i,
    {
        let c = s.get_char(i);
        if !('0' <= c && c <= '9') {
            return None;
        }
        let d = (c as u32 - '0' as u32) as u64;
        assert(s@.take(i as int + 1).drop_last() =~= s@.take(i as int));
        if acc > U64_TENTH || (acc == U64_TENTH && d > 5) {
            proof {
                assert(decimal_value(s@.take(i as int + 1)) > u64::MAX);
                if forall|k: int| 0 <= k < s@.len() ==> is_digit(#[trigger] s@[k]) {
                    lemma_decimal_monotone(s@, i as int + 1);
                }
            }
            return None;
        }
        acc = acc * 10 + d;
        i = i + 1;
    }
    assert(s@.take(n as int) =~= s@);
    Some(acc)
}

} // verus!

verus! {

/// Reads a byte count that an enumeration may leave out.
pub fn parse_opt_bytes(s: &Option<String>) -> (r: Option<u64>)
    ensures
        r == opt_bytes_of(*s),
{
    match s {
        Some(t) => parse_bytes(t.as_str()),
        None => None,
    }
}

/// One snapshot of the block-device enumeration: the filesystems that may
/// receive backups and the whole devices that may be backed up.
#[derive(Debug, Clone)]
pub struct Lsblk {
    pub available_filesystems: Vec<BlockDevice>,
    pub available_devices: Vec<BlockDevice>,
}

} // verus!
