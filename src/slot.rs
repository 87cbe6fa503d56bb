//! Shared back-buffer slots: the name under which each back-buffer is shared,
//! and the order in which a slot's objects are built and released.
use vstd::prelude::*;
use crate::layout::BACK_BUFFER_COUNT;

verus! {

/// The UTF-16 code units of one character.
pub open spec fn utf16_of_char(c: char) -> Seq<u16> {
    let v = c as u32;
    if v < 0x10000 {
        seq![v as u16]
    } else {
        seq![(0xD800 + (v - 0x10000) / 0x400) as u16, (0xDC00 + (v - 0x10000) % 0x400) as u16]
    }
}

/// The UTF-16 encoding of a character sequence.
pub open spec fn utf16_of(s: Seq<char>) -> Seq<u16>
    decreases s.len(),
{
    if s.len() == 0 {
        seq![]
    } else {
        utf16_of(s.drop_last()) + utf16_of_char(s.last())
    }
}

/// Whether `s` holds no nul character before its last position.
pub open spec fn no_interior_nul(s: Seq<char>) -> bool {
    forall|i: int| 0 <= i < s.len() - 1 ==> s[i] != '\0'
}

/// `u` with a nul terminator, unless it ends in one already.
pub open spec fn with_nul(u: Seq<u16>) -> Seq<u16> {
    if u.len() > 0 && u.last() == 0 {
        u
    } else {
        u.push(0)
    }
}

/// Relies on widestring's `U16CString::from_str`: it encodes the string as
/// UTF-16, refuses it when a nul comes before the last unit, and keeps or adds
/// one nul terminator.
#[verifier::external_body]
fn wide_c_string(s: &str) -> (r: Option<Vec<u16>>)
    ensures
        r is Some <==> no_interior_nul(s@),
        r matches Some(v) ==> v@ == with_nul(utf16_of(s@)),
{
    match widestring::U16CString::from_str(s) {
        Ok(w) => Some(w.into_vec_with_nul()),
        Err(_) => None,
    }
}

/// The decimal digit that ends the name of slot `i`.
pub open spec fn slot_digit(i: int) -> char {
    if i == 0 {
        '0'
    } else {
        '1'
    }
}

/// The name under which back-buffer `i` is shared.
pub open spec fn shared_name_spec(i: int) -> Seq<char> {
    "LocalSharedBackBufferResource"@.push(slot_digit(i))
}

/// The name under which back-buffer `i` is shared:
/// `LocalSharedBackBufferResource` followed by the slot index.
pub fn shared_handle_name(i: usize) -> (r: String)
    requires
        i < BACK_BUFFER_COUNT,
    ensures
        r@ == shared_name_spec(i as int),
{
    let mut name = String::from_str("LocalSharedBackBufferResource");
    if i == 0 {
        name.append("0");
    } else {
        name.append("1");
    }
    proof {
        reveal_strlit("0");
        reveal_strlit("1");
    }
    name
}

proof fn lemma_utf16_of_ascii(s: Seq<char>)
    requires
        forall|i: int| 0 <= i < s.len() ==> (s[i] as u32) < 0x80,
    ensures
        utf16_of(s).len() == s.len(),
        forall|i: int| 0 <= i < s.len() ==> #[trigger] utf16_of(s)[i] == s[i] as u32 as u16,
    decreases s.len(),
{
    if s.len() > 0 {
        lemma_utf16_of_ascii(s.drop_last());
    }
}

/// The shared name of back-buffer `i` as nul-terminated UTF-16, as the
/// handle-sharing and import calls take it.
pub fn shared_handle_wide_name(i: usize) -> (r: Vec<u16>)
    requires
        i < BACK_BUFFER_COUNT,
    ensures
        r@ == utf16_of(shared_name_spec(i as int)).push(0),
        r@.len() == shared_name_spec(i as int).len() + 1,
        forall|k: int|
            0 <= k < shared_name_spec(i as int).len() ==> #[trigger] r@[k]
                == shared_name_spec(i as int)[k] as u32 as u16,
{
    let name = shared_handle_name(i);
    let ghost s = shared_name_spec(i as int);
    proof {
        reveal_strlit("LocalSharedBackBufferResource");
        assert(forall|k: int| 0 <= k < s.len() ==> (s[k] as u32) < 0x80 && s[k] != '\0');
        lemma_utf16_of_ascii(s);
    }
    match wide_c_string(name.as_str()) {
        Some(v) => v,
        None => {
            proof {
                assert(false);
            }
            Vec::new()
        },
    }
}

/// One object of a shared back-buffer slot, in the order of construction.
#[derive(Debug, Clone, Copy, PartialEq, Eq, Structural)]
pub enum SlotStage {
    /// The swap-chain back-buffer as a compositor-API resource.
    BackBuffer,
    /// The named OS handle that shares it.
    SharedHandle,
    /// The graphics-API image declared over the shared memory.
    Image,
    /// The graphics-API memory imported from the handle and bound to the image.
    Memory,
    /// The view of that image.
    ImageView,
    /// The framebuffer over that view.
    Framebuffer,
}

/// The order in which a slot's objects are built.
pub open spec fn stage_order() -> Seq<SlotStage> {
    seq![
        SlotStage::BackBuffer,
        SlotStage::SharedHandle,
        SlotStage::Image,
        SlotStage::Memory,
        SlotStage::ImageView,
        SlotStage::Framebuffer,
    ]
}

/// Position of a stage in the order of construction.
pub open spec fn stage_rank(s: SlotStage) -> int {
    match s {
        SlotStage::BackBuffer => 0,
        SlotStage::SharedHandle => 1,
        SlotStage::Image => 2,
        SlotStage::Memory => 3,
        SlotStage::ImageView => 4,
        SlotStage::Framebuffer => 5,
    }
}

/// The stage at position `k` of the order of construction.
pub fn stage_at(k: usize) -> (r: SlotStage)
    requires
        k < 6,
    ensures
        r == stage_order()[k as int],
        stage_rank(r) == k,
{
    match k {
        0 => SlotStage::BackBuffer,
        1 => SlotStage::SharedHandle,
        2 => SlotStage::Image,
        3 => SlotStage::Memory,
        4 => SlotStage::ImageView,
        _ => SlotStage::Framebuffer,
    }
}

/// Which objects of one shared back-buffer slot exist, in the order built.
pub struct SlotBuild {
    slot: usize,
    built: Vec<SlotStage>,
}

impl View for SlotBuild {
    type V = Seq<SlotStage>;

    closed spec fn view(&self) -> Seq<SlotStage> {
        self.built@
    }
}

impl SlotBuild {
    /// The back-buffer index of the slot.
    pub closed spec fn slot_spec(&self) -> usize {
        self.slot
    }

    /// The objects that exist are a prefix of the order of construction.
    pub open spec fn wf(&self) -> bool {
        &&& self.slot_spec() < BACK_BUFFER_COUNT
        &&& self@.len() <= stage_order().len()
        &&& self@ == stage_order().take(self@.len() as int)
    }

    /// A slot for back-buffer `slot` with nothing built yet.
    pub fn new(slot: usize) -> (r: SlotBuild)
        requires
            slot < BACK_BUFFER_COUNT,
        ensures
            r.wf(),
            r@.len() == 0,
            r.slot_spec() == slot,
    {
        let r = SlotBuild { slot, built: Vec::new() };
        assert(r@ =~= stage_order().take(0));
        r
    }

    /// The back-buffer index of the slot.
    pub fn slot(&self) -> (r: usize)
        ensures
            r == self.slot_spec(),
    {
        self.slot
    }

    /// The objects that exist, in the order built.
    pub fn built(&self) -> (r: Vec<SlotStage>)
        ensures
            r@ == self@,
    {
        self.built.clone()
    }

    /// The object to build next, or `None` when the slot is complete.
    pub fn next_stage(&self) -> (r: Option<SlotStage>)
        requires
            self.wf(),
        ensures
            self@.len() < 6 ==> r == Some(stage_order()[self@.len() as int]),
            self@.len() == 6 ==> r is None,
    {
        if self.built.len() < 6 {
            Some(stage_at(self.built.len()))
        } else {
            None
        }
    }

    /// Whether every object of the slot exists.
    pub fn is_complete(&self) -> (r: bool)
        requires
            self.wf(),
        ensures
            r == (self@ == stage_order()),
    {
        assert(stage_order().take(6) =~= stage_order());
        self.built.len() == 6
    }

    /// Records that `stage` was built. Only the next stage in order is
    /// accepted; any other leaves the record unchanged and returns `false`.
    pub fn acquire(&mut self, stage: SlotStage) -> (r: bool)
        requires
            old(self).wf(),
        ensures
            final(self).wf(),
            final(self).slot_spec() == old(self).slot_spec(),
            r == (old(self)@.len() < 6 && stage == stage_order()[old(self)@.len() as int]),
            r ==> final(self)@ == old(self)@.push(stage),
            !r ==> final(self)@ == old(self)@,
    {
        let n = self.built.len();
        if n < 6 && stage == stage_at(n) {
            self.built.push(stage);
            assert(self@ =~= stage_order().take(n as int + 1));
            true
        } else {
            false
        }
    }

    /// Releases the object built last, if any, and returns it.
    pub fn release(&mut self) -> (r: Option<SlotStage>)
        requires
            old(self).wf(),
        ensures
            final(self).wf(),
            final(self).slot_spec() == old(self).slot_spec(),
            old(self)@.len() == 0 ==> r is None && final(self)@ == old(self)@,
            old(self)@.len() > 0 ==> r == Some(old(self)@.last()) && final(self)@
                == old(self)@.drop_last(),
    {
        let r = self.built.pop();
        proof {
            if old(self)@.len() > 0 {
                assert(self@ =~= stage_order().take(self@.len() as int));
            }
        }
        r
    }

    /// Releases every object, last built first, and returns them in the order released.
    pub fn teardown(&mut self) -> (r: Vec<SlotStage>)
        requires
            old(self).wf(),
        ensures
            final(self).wf(),
            final(self)@.len() == 0,
            final(self).slot_spec() == old(self).slot_spec(),
            r@ == old(self)@.reverse(),
    {
        let mut out: Vec<SlotStage> = Vec::new();
        let ghost start = self@;
        while self.built.len() > 0
            invariant
                self.wf(),
                self.slot_spec() == old(self).slot_spec(),
                start == old(self)@,
                self@.len() <= start.len(),
                self@ == start.take(self@.len() as int),
                out@ == start.reverse().take(start.len() - self@.len()),
            decreases self@.len(),
        {
            let ghost prev = self@;
            let s = self.release();
            match s {
                Some(st) => {
                    out.push(st);
                },
                None => {},
            }
            assert(self@ =~= start.take(self@.len() as int));
            assert(prev.last() == start[prev.len() - 1]);
            assert(start.reverse()[start.len() - prev.len()] == start[prev.len() - 1]);
            assert(out@ =~= start.reverse().take(start.len() - self@.len()));
        }
        assert(out@ =~= start.reverse());
        out
    }
}

/// No object of a slot exists without every object built before it: a stage
/// present in a well-formed slot record implies all earlier stages are present.
pub proof fn lemma_slot_earlier_stages_exist(b: SlotBuild, s: SlotStage, t: SlotStage)
    requires
        b.wf(),
        b@.contains(s),
        stage_rank(t) <= stage_rank(s),
    ensures
        b@.contains(t),
{
    let k = choose|k: int| 0 <= k < b@.len() && b@[k] == s;
    assert(stage_order()[stage_rank(s)] == s);
    assert(stage_order()[stage_rank(t)] == t);
    assert(stage_rank(s) == k);
    assert(b@[stage_rank(t)] == t);
}

} // verus!
