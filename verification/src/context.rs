//! The saved context of a guest: a list of records, each with a descriptor in front of it.
//!
//! A descriptor has eight bytes, all of them little endian: the type of the record (two bytes),
//! its instance (two bytes; for a CPU record, the virtual CPU) and the length of what follows
//! (four bytes).
use vstd::prelude::*;

verus! {

/// The bytes of a descriptor.
pub const DESCRIPTOR_SIZE: usize = 8;

/// The two bytes at `at` as a little endian number.
pub open spec fn word16(bytes: Seq<u8>, at: int) -> u16 {
    (bytes[at] + 0x100 * bytes[at + 1]) as u16
}

/// The four bytes at `at` as a little endian number.
pub open spec fn word32(bytes: Seq<u8>, at: int) -> u32 {
    (bytes[at] + 0x100 * bytes[at + 1] + 0x1_0000 * bytes[at + 2] + 0x100_0000 * bytes[at
        + 3]) as u32
}

/// A record of a saved context: its descriptor, and where its body starts.
pub struct SaveRecord {
    pub typecode: u16,
    pub instance: u16,
    pub length: u32,
    pub body: int,
}

/// The record whose descriptor stands at `at`.
pub open spec fn record_at(context: Seq<u8>, at: int) -> SaveRecord {
    SaveRecord {
        typecode: word16(context, at),
        instance: word16(context, at + 2),
        length: word32(context, at + 4),
        body: at + DESCRIPTOR_SIZE,
    }
}

/// The records of a saved context from `at` on: each starts where the one before it ends, and
/// the list ends where no whole descriptor is left.
pub open spec fn records(context: Seq<u8>, at: int) -> Seq<SaveRecord>
    decreases
            if at <= context.len() {
                context.len() - at
            } else {
                0
            },
{
    if at < 0 || at + DESCRIPTOR_SIZE > context.len() {
        Seq::empty()
    } else {
        let record = record_at(context, at);
        seq![record] + records(context, record.body + record.length)
    }
}

/// The body of the first of `list` that has the type `typecode` and the instance `instance`.
pub open spec fn first_body(list: Seq<SaveRecord>, typecode: u16, instance: u16) -> Option<int>
    decreases list.len(),
{
    if list.len() == 0 {
        None
    } else if list[0].typecode == typecode && list[0].instance == instance {
        Some(list[0].body)
    } else {
        first_body(list.drop_first(), typecode, instance)
    }
}

/// Where the body of the first record of the type `typecode` and the instance `instance` starts.
pub fn find_record(context: &[u8], typecode: u16, instance: u16) -> (body: Option<usize>)
    ensures
        match body {
            Some(start) => first_body(records(context@, 0), typecode, instance) == Some(
                start as int,
            ) && start <= context@.len(),
            None => first_body(records(context@, 0), typecode, instance) is None,
        },
{
    let mut at: usize = 0;
    while context.len() - at >= DESCRIPTOR_SIZE
        invariant
            at <= context@.len(),
            first_body(records(context@, 0), typecode, instance) == first_body(
                records(context@, at as int),
                typecode,
                instance,
            ),
        decreases context@.len() - at,
    {
        let found_typecode: u16 = context[at] as u16 + 0x100 * context[at + 1] as u16;
        let found_instance: u16 = context[at + 2] as u16 + 0x100 * context[at + 3] as u16;
        let length: u32 = context[at + 4] as u32 + 0x100 * context[at + 5] as u32 + 0x1_0000
            * context[at + 6] as u32 + 0x100_0000 * context[at + 7] as u32;
        let body: usize = at + DESCRIPTOR_SIZE;
        let ghost record = record_at(context@, at as int);
        assert(records(context@, at as int).drop_first() =~= records(
            context@,
            record.body + record.length,
        ));
        if found_typecode == typecode && found_instance == instance {
            return Some(body);
        }
        if length as usize > context.len() - body {
            assert(first_body(
                records(context@, record.body + record.length),
                typecode,
                instance,
            ) is None);
            return None;
        }
        at = body + length as usize;
    }
    None
}

/// The body of a record starts in the context, or at its end.
pub proof fn lemma_bodies_in_context(context: Seq<u8>, at: int)
    ensures
        forall|k: int|
            0 <= k < records(context, at).len() ==> 0 <= (#[trigger] records(context, at)[k]).body
                <= context.len(),
    decreases
            if at <= context.len() {
                context.len() - at
            } else {
                0
            },
{
    if 0 <= at && at + DESCRIPTOR_SIZE <= context.len() {
        let record = record_at(context, at);
        let next = record.body + record.length;
        lemma_bodies_in_context(context, next);
        assert forall|k: int| 0 <= k < records(context, at).len() implies 0 <= (#[trigger] records(
            context,
            at,
        )[k]).body <= context.len() by {
            if k > 0 {
                assert(records(context, at)[k] == records(context, next)[k - 1]);
            }
        }
    }
}

/// Where the state of a virtual CPU starts: the body of the first record of the type `typecode`
/// for the CPU `vcpu`, if the context holds all `size` bytes of it.
pub open spec fn cpu_state(
    context: Seq<u8>,
    typecode: u16,
    vcpu: u16,
    size: u32,
) -> Option<usize> {
    match first_body(records(context, 0), typecode, vcpu) {
        Some(body) => if body + size <= context.len() {
            Some(body as usize)
        } else {
            None
        },
        None => None,
    }
}

/// Where the state of the virtual CPU `vcpu` starts, if the context holds all of it.
pub fn find_cpu(context: &[u8], typecode: u16, vcpu: u16, size: u32) -> (start: Option<usize>)
    ensures
        start == cpu_state(context@, typecode, vcpu, size),
{
    match find_record(context, typecode, vcpu) {
        Some(body) => if size as usize <= context.len() - body {
            Some(body)
        } else {
            None
        },
        None => None,
    }
}

/// What [`find_record`] finds is the first record that was asked for: no record before it has
/// the type and the instance, and where it finds none, no record has them.
pub proof fn law_first_body(list: Seq<SaveRecord>, typecode: u16, instance: u16)
    ensures
        match first_body(list, typecode, instance) {
            Some(body) => exists|k: int|
                {
                    &&& 0 <= k < list.len()
                    &&& (#[trigger] list[k]).body == body
                    &&& list[k].typecode == typecode && list[k].instance == instance
                    &&& forall|j: int|
                        0 <= j < k ==> !((#[trigger] list[j]).typecode == typecode
                            && list[j].instance == instance)
                },
            None => forall|j: int|
                0 <= j < list.len() ==> !((#[trigger] list[j]).typecode == typecode
                    && list[j].instance == instance),
        },
    decreases list.len(),
{
    if list.len() > 0 {
        if list[0].typecode == typecode && list[0].instance == instance {
        } else {
            let rest = list.drop_first();
            law_first_body(rest, typecode, instance);
            assert(forall|j: int| 0 <= j < rest.len() ==> rest[j] == #[trigger] list[j + 1]);
            if first_body(list, typecode, instance) is Some {
                let body = first_body(list, typecode, instance)->0;
                let k: int = choose|k: int|
                    {
                        &&& 0 <= k < rest.len()
                        &&& (#[trigger] rest[k]).body == body
                        &&& rest[k].typecode == typecode && rest[k].instance == instance
                        &&& forall|j: int|
                            0 <= j < k ==> !((#[trigger] rest[j]).typecode == typecode
                                && rest[j].instance == instance)
                    };
                assert(list[k + 1].body == body);
                assert forall|j: int| 0 <= j < k + 1 implies !((#[trigger] list[j]).typecode
                    == typecode && list[j].instance == instance) by {
                    if j > 0 {
                        assert(rest[j - 1] == list[j]);
                    }
                }
            } else {
                assert forall|j: int| 0 <= j < list.len() implies !((#[trigger] list[j]).typecode
                    == typecode && list[j].instance == instance) by {
                    if j > 0 {
                        assert(rest[j - 1] == list[j]);
                    }
                }
            }
        }
    }
}

/// Numbers in a context are little endian.
pub proof fn law_words_little_endian(bytes: Seq<u8>, at: int)
    ensures
        word16(bytes, at) == bytes[at] + 0x100 * bytes[at + 1],
        word32(bytes, at) == bytes[at] + 0x100 * bytes[at + 1] + 0x1_0000 * bytes[at + 2]
            + 0x100_0000 * bytes[at + 3],
{
}

/// The records of any context follow each other without a gap. The first descriptor stands at the
/// start; the body of each record stands behind its descriptor, and behind the body stands the
/// next descriptor. The list ends only where no whole descriptor is left.
pub proof fn law_records_follow(context: Seq<u8>, at: int)
    requires
        0 <= at,
    ensures
        ({
            let list = records(context, at);
            &&& list.len() == 0 <==> at + 8 > context.len()
            &&& list.len() > 0 ==> list[0].body == at + 8
            &&& forall|k: int|
                0 <= k < list.len() ==> {
                    let record = #[trigger] list[k];
                    &&& at + 8 <= record.body <= context.len()
                    &&& record.typecode == word16(context, record.body - 8)
                    &&& record.instance == word16(context, record.body - 6)
                    &&& record.length == word32(context, record.body - 4)
                }
            &&& forall|k: int, j: int|
                0 <= k && j == k + 1 && j < list.len() ==> (#[trigger] list[j]).body == (
                #[trigger] list[k]).body + list[k].length + 8
            &&& list.len() > 0 ==> list.last().body + list.last().length + 8 > context.len()
        }),
    decreases
            if at <= context.len() {
                context.len() - at
            } else {
                0
            },
{
    if at + DESCRIPTOR_SIZE <= context.len() {
        let record = record_at(context, at);
        let next = record.body + record.length;
        let list = records(context, at);
        let rest = records(context, next);
        law_records_follow(context, next);
        assert(list =~= seq![record] + rest);
        assert(forall|k: int| 0 < k < list.len() ==> #[trigger] list[k] == rest[k - 1]);
        assert forall|k: int, j: int| 0 <= k && j == k + 1 && j < list.len() implies (
        #[trigger] list[j]).body == (#[trigger] list[k]).body + list[k].length + 8 by {
            assert(list[j] == rest[j - 1]);
            if k > 0 {
                assert(list[k] == rest[k - 1]);
            }
        }
        if rest.len() > 0 {
            assert(list.last() == rest.last());
        }
    }
}

/// The state of a CPU is found if and only if there is a record for it and the context holds all
/// of the state; it is the body of the first such record.
pub proof fn law_cpu_state(context: Seq<u8>, typecode: u16, vcpu: u16, size: u32)
    requires
        context.len() <= usize::MAX,
    ensures
        cpu_state(context, typecode, vcpu, size) matches Some(start) ==> first_body(
            records(context, 0),
            typecode,
            vcpu,
        ) == Some(start as int) && start + size <= context.len(),
        first_body(records(context, 0), typecode, vcpu) matches Some(body) ==> body + size
            <= context.len() ==> cpu_state(context, typecode, vcpu, size) is Some,
{
    law_first_body(records(context, 0), typecode, vcpu);
    lemma_bodies_in_context(context, 0);
}

/// A record as it goes into a saved context.
pub struct SavedItem {
    pub typecode: u16,
    pub instance: u16,
    pub data: Seq<u8>,
}

/// The descriptor of a record.
#[verifier::opaque]
pub open spec fn descriptor(item: SavedItem) -> Seq<u8> {
    let length = item.data.len();
    seq![
        (item.typecode % 0x100) as u8,
        (item.typecode / 0x100) as u8,
        (item.instance % 0x100) as u8,
        (item.instance / 0x100) as u8,
        (length % 0x100) as u8,
        (length / 0x100 % 0x100) as u8,
        (length / 0x1_0000 % 0x100) as u8,
        (length / 0x100_0000) as u8,
    ]
}

/// The saved context that holds the records `items`, one after the other.
pub open spec fn saved(items: Seq<SavedItem>) -> Seq<u8>
    decreases items.len(),
{
    if items.len() == 0 {
        Seq::empty()
    } else {
        descriptor(items[0]) + items[0].data + saved(items.drop_first())
    }
}

/// Whether `record` is where `context` holds `item`.
pub open spec fn holds(context: Seq<u8>, record: SaveRecord, item: SavedItem) -> bool {
    &&& record.typecode == item.typecode
    &&& record.instance == item.instance
    &&& record.length == item.data.len()
    &&& 0 <= record.body
    &&& record.body + record.length <= context.len()
    &&& context.subrange(record.body, record.body + record.length) == item.data
}

/// Two bytes make up the number that they were taken from.
proof fn lemma_bytes_of_u16(n: u16)
    ensures
        n / 0x100 <= u8::MAX,
        (n % 0x100) as u8 + 0x100 * ((n / 0x100) as u8) == n,
{
}

/// Four bytes make up the number that they were taken from.
proof fn lemma_bytes_of_u32(n: nat)
    requires
        n <= u32::MAX,
    ensures
        (n % 0x100) as u8 + 0x100 * ((n / 0x100 % 0x100) as u8) + 0x1_0000 * ((n / 0x1_0000
            % 0x100) as u8) + 0x100_0000 * ((n / 0x100_0000) as u8) == n,
{
    let a = n / 0x100;
    let b = a / 0x100;
    assert(n / 0x1_0000 == b);
    assert(n / 0x100_0000 == b / 0x100);
    assert(b / 0x100 <= u8::MAX);
}

/// What is read from a descriptor, wherever it stands, is what it was made of.
proof fn lemma_descriptor_read(prefix: Seq<u8>, item: SavedItem, suffix: Seq<u8>)
    requires
        item.data.len() <= u32::MAX,
    ensures
        descriptor(item).len() == DESCRIPTOR_SIZE,
        ({
            let record = record_at(prefix + descriptor(item) + suffix, prefix.len() as int);
            &&& record.typecode == item.typecode
            &&& record.instance == item.instance
            &&& record.length == item.data.len()
        }),
{
    reveal(descriptor);
    let context = prefix + descriptor(item) + suffix;
    let at = prefix.len() as int;
    let bytes = descriptor(item);
    assert(context[at] == bytes[0]);
    assert(context[at + 1] == bytes[1]);
    assert(context[at + 2] == bytes[2]);
    assert(context[at + 3] == bytes[3]);
    assert(context[at + 4] == bytes[4]);
    assert(context[at + 5] == bytes[5]);
    assert(context[at + 6] == bytes[6]);
    assert(context[at + 7] == bytes[7]);
    lemma_bytes_of_u16(item.typecode);
    lemma_bytes_of_u16(item.instance);
    lemma_bytes_of_u32(item.data.len());
}

/// The record at the end of `prefix` is the one that was saved there, and ends where the rest
/// starts.
proof fn lemma_record_saved(prefix: Seq<u8>, item: SavedItem, rest: Seq<u8>)
    requires
        item.data.len() <= u32::MAX,
    ensures
        ({
            let head = prefix + descriptor(item) + item.data;
            let record = record_at(head + rest, prefix.len() as int);
            &&& holds(head + rest, record, item)
            &&& record.body + record.length == head.len()
        }),
{
    let context = prefix + descriptor(item) + item.data + rest;
    assert(context =~= prefix + descriptor(item) + (item.data + rest));
    lemma_descriptor_read(prefix, item, item.data + rest);
    let record = record_at(context, prefix.len() as int);
    assert(context.subrange(record.body, record.body + record.length) =~= item.data);
}

/// The records behind a prefix of any content are those that were saved there.
proof fn lemma_saved_behind(prefix: Seq<u8>, items: Seq<SavedItem>)
    requires
        forall|k: int| 0 <= k < items.len() ==> (#[trigger] items[k]).data.len() <= u32::MAX,
    ensures
        records(prefix + saved(items), prefix.len() as int).len() == items.len(),
        forall|k: int|
            0 <= k < items.len() ==> holds(
                prefix + saved(items),
                #[trigger] records(prefix + saved(items), prefix.len() as int)[k],
                items[k],
            ),
    decreases items.len(),
{
    if items.len() > 0 {
        let context = prefix + saved(items);
        let at = prefix.len() as int;
        let item = items[0];
        let rest = items.drop_first();
        let head = prefix + descriptor(item) + item.data;
        assert(context =~= head + saved(rest));
        lemma_saved_behind(head, rest);
        lemma_record_saved(prefix, item, saved(rest));
        let list = records(context, at);
        let behind = records(context, head.len() as int);
        assert(list =~= seq![record_at(context, at)] + behind);
        assert forall|k: int| 0 <= k < items.len() implies holds(
            context,
            #[trigger] list[k],
            items[k],
        ) by {
            if k > 0 {
                assert(list[k] == behind[k - 1]);
                assert(items[k] == rest[k - 1]);
            }
        }
    }
}

/// The records of a saved context are the records that were saved, in their order.
pub proof fn law_saved_records(items: Seq<SavedItem>)
    requires
        forall|k: int| 0 <= k < items.len() ==> (#[trigger] items[k]).data.len() <= u32::MAX,
    ensures
        records(saved(items), 0).len() == items.len(),
        forall|k: int|
            0 <= k < items.len() ==> holds(
                saved(items),
                #[trigger] records(saved(items), 0)[k],
                items[k],
            ),
{
    lemma_saved_behind(Seq::empty(), items);
    assert(Seq::<u8>::empty() + saved(items) =~= saved(items));
}

/// Of a context that was saved, the state of a virtual CPU is what the first record for it
/// holds.
pub proof fn law_saved_cpu_state(
    items: Seq<SavedItem>,
    k: int,
    typecode: u16,
    vcpu: u16,
    size: u32,
)
    requires
        forall|j: int| 0 <= j < items.len() ==> (#[trigger] items[j]).data.len() <= u32::MAX,
        saved(items).len() <= usize::MAX,
        0 <= k < items.len(),
        items[k].typecode == typecode && items[k].instance == vcpu,
        items[k].data.len() >= size,
        forall|j: int|
            0 <= j < k ==> !((#[trigger] items[j]).typecode == typecode && items[j].instance
                == vcpu),
    ensures
        cpu_state(saved(items), typecode, vcpu, size) matches Some(start) && start + size
            <= saved(items).len() && saved(items).subrange(start as int, start + size)
            == items[k].data.take(size as int),
{
    let context = saved(items);
    let list = records(context, 0);
    law_saved_records(items);
    law_first_body(list, typecode, vcpu);
    assert(holds(context, list[k], items[k]));
    assert forall|j: int| 0 <= j < k implies !((#[trigger] list[j]).typecode == typecode
        && list[j].instance == vcpu) by {
        assert(holds(context, list[j], items[j]));
    }
    let body = list[k].body;
    assert(first_body(list, typecode, vcpu) == Some(body));
    assert(context.subrange(body, body + size) =~= context.subrange(
        body,
        body + list[k].length,
    ).take(size as int));
}

} // verus!
