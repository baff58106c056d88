use vstd::prelude::*;

use once_cell::sync::OnceCell;

use crate::interfaces::NetvarMap;
use crate::memory::{
    ascii_bytes, chunk_values, chunks_well_formed, pattern_scan, pattern_values, pattern_well_formed,
    scan_result, without_spaces,
};
use crate::structs::{CRecvProp, CRecvTable, EPropType};

verus! {

/// The key under which a property of a table is stored: `table->property`.
pub open spec fn netvar_key(table: Seq<char>, netvar: Seq<char>) -> Seq<char> {
    table + "->"@ + netvar
}

/// Property kinds whose offsets are kept.
pub open spec fn is_stored_type(t: EPropType) -> bool {
    t == EPropType::Int || t == EPropType::Vec || t == EPropType::VecXY || t == EPropType::String
        || t == EPropType::Float
}

/// The offset a property gets: its own offset plus that of the table that
/// holds it, with the address arithmetic wrapping as in a release build.
pub open spec fn prop_offset(prop: CRecvProp, child_offset: usize) -> usize {
    (#[verifier::truncate] (prop.offset as usize)).wrapping_add(child_offset)
}

/// The table after storing the properties of `table` under `group`.
pub open spec fn stored_table(
    m: Map<Seq<char>, usize>,
    group: Seq<char>,
    table: CRecvTable,
    child_offset: usize,
) -> Map<Seq<char>, usize>
    decreases table, 1nat, 0nat,
{
    stored_props(m, group, table.props@, child_offset)
}

/// The table after storing each property of `props`, first to last.
pub open spec fn stored_props(
    m: Map<Seq<char>, usize>,
    group: Seq<char>,
    props: Seq<CRecvProp>,
    child_offset: usize,
) -> Map<Seq<char>, usize>
    decreases props, 0nat, 0nat,
{
    if props.len() == 0 {
        m
    } else {
        stored_props(
            stored_prop(m, group, props[0], child_offset),
            group,
            props.subrange(1, props.len() as int),
            child_offset,
        )
    }
}

/// The table after storing one property: first the properties of the
/// non-empty table it points to (at the property's own offset), then the
/// property itself, when its kind is kept and its bare name is not a key.
pub open spec fn stored_prop(
    m: Map<Seq<char>, usize>,
    group: Seq<char>,
    prop: CRecvProp,
    child_offset: usize,
) -> Map<Seq<char>, usize>
    decreases prop, 0nat, 1nat,
{
    let m1 = match prop.data_table {
        Some(child) => if child.props.len() > 0 {
            stored_table(m, group, *child, #[verifier::truncate] (prop.offset as usize))
        } else {
            m
        },
        None => m,
    };
    if !m1.contains_key(prop.prop_name@) && is_stored_type(prop.prop_type) {
        m1.insert(netvar_key(group, prop.prop_name@), prop_offset(prop, child_offset))
    } else {
        m1
    }
}

/// A client class as the netvar engine sees it: where its receive table
/// lives and, unless that address is null, the table itself.
pub struct ClientClassTable {
    pub recv_table_address: usize,
    pub recv_table: Option<CRecvTable>,
}

/// The table after storing the receive table of each class, in order,
/// each under its own table name at offset 0.
pub open spec fn stored_classes(m: Map<Seq<char>, usize>, classes: Seq<ClientClassTable>) -> Map<
    Seq<char>,
    usize,
>
    decreases classes.len(),
{
    if classes.len() == 0 {
        m
    } else {
        let last = classes.last();
        let before = stored_classes(m, classes.drop_last());
        match last.recv_table {
            Some(t) => stored_table(before, t.table_name@, t, 0),
            None => before,
        }
    }
}

/// The addresses of the receive tables that the classes have, in order.
pub open spec fn class_table_addresses(classes: Seq<ClientClassTable>) -> Seq<usize>
    decreases classes.len(),
{
    if classes.len() == 0 {
        seq![]
    } else {
        let before = class_table_addresses(classes.drop_last());
        match classes.last().recv_table {
            Some(_) => before.push(classes.last().recv_table_address),
            None => before,
        }
    }
}

/// The key of the dormancy flag, which no receive table provides.
pub open spec fn dormancy_key() -> Seq<char> {
    netvar_key("CustomTable"@, "Dormancy"@)
}

/// The key of the reload flag, found by a signature scan.
pub open spec fn in_reload_key() -> Seq<char> {
    netvar_key("CustomTable"@, "InReload"@)
}

/// The offset of the dormancy flag in an entity.
pub const DORMANCY_OFFSET: usize = 0xED;

/// The signature whose address in `client.dll` is kept as the reload flag.
pub const IN_RELOAD_SIGNATURE: &'static str = "C6 87 ? ? ? ? ? 8B 06 8B CE FF 90";

/// The byte pattern of `IN_RELOAD_SIGNATURE`.
pub open spec fn in_reload_pattern() -> Seq<i32> {
    pattern_values(IN_RELOAD_SIGNATURE@)
}

/// Where the reload signature is found in a `client.dll` image mapped at
/// `client_base`, or 0.
pub open spec fn in_reload_address(client_base: usize, client_image: Seq<u8>) -> usize {
    scan_result(client_base, client_image, in_reload_pattern())
}

/// The table `initialize` builds from `m`: every class's receive table,
/// then the dormancy offset, then the address of the reload signature.
pub open spec fn initialized_netvars(
    m: Map<Seq<char>, usize>,
    classes: Seq<ClientClassTable>,
    in_reload: usize,
) -> Map<Seq<char>, usize> {
    stored_classes(m, classes).insert(dormancy_key(), DORMANCY_OFFSET).insert(
        in_reload_key(),
        in_reload,
    )
}

/// What `get_offset` returns for a table name and a property name.
pub open spec fn offset_in(m: Map<Seq<char>, usize>, table: Seq<char>, netvar: Seq<char>) -> usize {
    if m.contains_key(netvar_key(table, netvar)) {
        m[netvar_key(table, netvar)]
    } else {
        0
    }
}

/// Offsets of networked entity properties, keyed `table->property`.
pub struct NetvarEngine {
    pub netvars: NetvarMap,
    /// Addresses of the receive tables that were walked.
    pub tables: Vec<usize>,
}

/// `table->netvar` as a string.
fn key_string(table: &str, netvar: &str) -> (key: String)
    ensures
        key@ == netvar_key(table@, netvar@),
{
    let mut key = String::from_str(table);
    key.append("->");
    key.append(netvar);
    key
}

/// The instance the cell holds, once it has been set.
///
/// Calls `once_cell::sync::OnceCell::get`. What it returns depends on
/// whether `set` has run on this cell, which no clause states.
#[verifier::external_body]
fn stored_instance(cell: &'static OnceCell<NetvarEngine>) -> (instance: Option<&'static NetvarEngine>) {
    cell.get()
}

impl NetvarEngine {
    /// An engine with no offsets, before any table was walked.
    pub fn new() -> (engine: NetvarEngine)
        ensures
            engine.netvars@ == Map::<Seq<char>, usize>::empty(),
            engine.tables@ == Seq::<usize>::empty(),
    {
        NetvarEngine { netvars: NetvarMap::new(), tables: Vec::new() }
    }

    /// An engine built by `initialize` from the client classes and the
    /// image of `client.dll`.
    pub fn from_client_classes(
        classes: &Vec<ClientClassTable>,
        client_base: usize,
        client_image: &[u8],
    ) -> (engine: NetvarEngine)
        requires
            client_image@.len() >= 8,
            client_base + client_image@.len() <= usize::MAX,
        ensures
            engine.netvars@ == initialized_netvars(
                Map::empty(),
                classes@,
                in_reload_address(client_base, client_image@),
            ),
            engine.tables@ == class_table_addresses(classes@),
    {
        let mut engine = NetvarEngine::new();
        engine.initialize(classes, client_base, client_image);
        engine
    }

    /// Stores the properties of `recv_table`, and those of the non-empty
    /// tables its properties point to, under `group_name`.
    fn store_props(&mut self, group_name: &String, recv_table: &CRecvTable, child_offset: usize)
        ensures
            final(self).netvars@ == stored_table(
                old(self).netvars@,
                group_name@,
                *recv_table,
                child_offset,
            ),
            final(self).tables == old(self).tables,
        decreases recv_table,
    {
        let ghost m0 = self.netvars@;
        let ghost props = recv_table.props@;
        let n = recv_table.props.len();
        assert(props.subrange(0, n as int) =~= props);
        let mut idx: usize = 0;
        while idx < n
            invariant
                n == props.len(),
                props == recv_table.props@,
                idx <= n,
                stored_table(m0, group_name@, *recv_table, child_offset) == stored_props(
                    self.netvars@,
                    group_name@,
                    props.subrange(idx as int, n as int),
                    child_offset,
                ),
                self.tables == old(self).tables,
            decreases n - idx,
        {
            let ghost before = self.netvars@;
            let prop = &recv_table.props[idx];
            match &prop.data_table {
                Some(child) => {
                    if child.props.len() > 0 {
                        assert(decreases_to!(recv_table => recv_table.props));
                        assert(decreases_to!(recv_table.props => recv_table.props@));
                        assert(decreases_to!(recv_table.props@ => recv_table.props@[idx as int]));
                        self.store_props(group_name, child, #[verifier::truncate] (prop.offset as usize));
                    }
                },
                None => {},
            }
            let var_name = &prop.prop_name;
            let formatted = key_string(group_name.as_str(), var_name.as_str());
            if !self.netvars.contains_key(var_name) && (prop.prop_type == EPropType::Int
                || prop.prop_type == EPropType::Vec || prop.prop_type == EPropType::VecXY
                || prop.prop_type == EPropType::String || prop.prop_type == EPropType::Float) {
                self.netvars.insert(
                    formatted,
                    (#[verifier::truncate] (prop.offset as usize)).wrapping_add(child_offset),
                );
            }
            proof {
                let rest = props.subrange(idx as int, n as int);
                assert(rest[0] == props[idx as int]);
                assert(rest.subrange(1, rest.len() as int) =~= props.subrange(idx + 1, n as int));
                assert(self.netvars@ == stored_prop(before, group_name@, props[idx as int], child_offset));
            }
            idx = idx + 1;
        }
        assert(props.subrange(n as int, n as int) =~= Seq::<CRecvProp>::empty());
    }

    /// Rebuilds the offsets: walks the receive table of every client class
    /// that has one, then adds the dormancy offset and the address at which
    /// `IN_RELOAD_SIGNATURE` is found in `client_image`, the image of
    /// `client.dll` mapped at `client_base` (0 when it is not found).
    pub fn initialize(&mut self, classes: &Vec<ClientClassTable>, client_base: usize, client_image: &[u8])
        requires
            client_image@.len() >= 8,
            client_base + client_image@.len() <= usize::MAX,
        ensures
            final(self).netvars@ == initialized_netvars(
                old(self).netvars@,
                classes@,
                in_reload_address(client_base, client_image@),
            ),
            final(self).tables@ == class_table_addresses(classes@),
    {
        self.tables.clear();
        let ghost m0 = self.netvars@;
        let mut i: usize = 0;
        while i < classes.len()
            invariant
                i <= classes@.len(),
                self.netvars@ == stored_classes(m0, classes@.take(i as int)),
                self.tables@ == class_table_addresses(classes@.take(i as int)),
            decreases classes@.len() - i,
        {
            assert(classes@.take(i + 1).drop_last() =~= classes@.take(i as int));
            let class = &classes[i];
            match &class.recv_table {
                Some(recv_table) => {
                    self.tables.push(class.recv_table_address);
                    let table_name = recv_table.table_name.clone();
                    self.store_props(&table_name, recv_table, 0);
                },
                None => {},
            }
            i = i + 1;
        }
        assert(classes@.take(classes@.len() as int) =~= classes@);
        self.netvars.insert(key_string("CustomTable", "Dormancy"), DORMANCY_OFFSET);
        proof {
            lemma_in_reload_signature();
        }
        let in_reload = pattern_scan(client_base, client_image, IN_RELOAD_SIGNATURE);
        self.netvars.insert(key_string("CustomTable", "InReload"), in_reload);
    }

    /// The offset stored for `netvar` in `table`, or 0 when there is none.
    pub fn get_offset(&self, table: &str, netvar: &str) -> (offset: usize)
        ensures
            offset == offset_in(self.netvars@, table@, netvar@),
    {
        let pair = key_string(table, netvar);
        match self.netvars.get(&pair) {
            Some(offset) => offset,
            None => 0,
        }
    }

    /// The engine the cell holds, or `None` while it has not been set.
    pub fn get(cell: &'static OnceCell<NetvarEngine>) -> (engine: Option<&'static NetvarEngine>) {
        stored_instance(cell)
    }
}

/// The offset of `netvar` in `table` in `engine`, if there is an engine.
pub fn offset_in_engine(engine: Option<&NetvarEngine>, table: &str, netvar: &str) -> (offset:
    Option<usize>)
    ensures
        offset == (match engine {
            Some(e) => Some(offset_in(e.netvars@, table@, netvar@)),
            None => None,
        }),
{
    match engine {
        Some(engine) => Some(engine.get_offset(table, netvar)),
        None => None,
    }
}

/// The offset of `netvar` in `table` in the engine the cell holds; `None`
/// while the cell has not been set.
///
/// Whether the cell holds an engine, and which, depends on what was stored
/// in it before; what is done with the engine is `offset_in_engine`.
pub fn get_offset(cell: &'static OnceCell<NetvarEngine>, table: &str, netvar: &str) -> Option<
    usize,
> {
    offset_in_engine(NetvarEngine::get(cell), table, netvar)
}

/// Whatever the receive tables held, after `initialize` the dormancy flag
/// is found at `DORMANCY_OFFSET` and the reload flag at the address the
/// reload signature was found at.
pub proof fn lemma_custom_offsets(
    m: Map<Seq<char>, usize>,
    classes: Seq<ClientClassTable>,
    in_reload: usize,
)
    ensures
        offset_in(initialized_netvars(m, classes, in_reload), "CustomTable"@, "Dormancy"@)
            == DORMANCY_OFFSET,
        offset_in(initialized_netvars(m, classes, in_reload), "CustomTable"@, "InReload"@)
            == in_reload,
{
    reveal_strlit("CustomTable");
    reveal_strlit("Dormancy");
    reveal_strlit("InReload");
    reveal_strlit("->");
    let d = dormancy_key();
    let r = in_reload_key();
    assert(d[13] == 'D');
    assert(r[13] == 'I');
    assert(d != r);
}

/// The reload signature is one the parser accepts, and stands for eight
/// bytes: the single `?` wildcards shift the pairing of what follows them.
pub proof fn lemma_in_reload_signature()
    ensures
        pattern_well_formed(IN_RELOAD_SIGNATURE@),
        pattern_values(IN_RELOAD_SIGNATURE@) =~= seq![0xC6i32, 0x87, 0xB0, 0x68, 0xBC, 0xEF, 0xF9, 0x0],
{
    reveal_strlit("C6 87 ? ? ? ? ? 8B 06 8B CE FF 90");
    let s = IN_RELOAD_SIGNATURE@;
    assert(s.len() == 33);
    let b = ascii_bytes(s);
    assert(b =~= seq![
        0x43u8, 0x36, 0x20, 0x38, 0x37, 0x20, 0x3F, 0x20, 0x3F, 0x20, 0x3F, 0x20, 0x3F, 0x20, 0x3F,
        0x20, 0x38, 0x42, 0x20, 0x30, 0x36, 0x20, 0x38, 0x42, 0x20, 0x43, 0x45, 0x20, 0x46, 0x46,
        0x20, 0x39, 0x30,
    ]);
    reveal_with_fuel(without_spaces, 34);
    let t = without_spaces(b);
    assert(t =~= seq![
        0x43u8, 0x36, 0x38, 0x37, 0x3F, 0x3F, 0x3F, 0x3F, 0x3F, 0x38, 0x42, 0x30, 0x36, 0x38, 0x42,
        0x43, 0x45, 0x46, 0x46, 0x39, 0x30,
    ]);
    assert(vstd::utf8::is_ascii_chars(s));
    reveal_with_fuel(chunks_well_formed, 12);
    reveal_with_fuel(chunk_values, 12);
}

/// A kept property of a class's receive table reads back, after
/// `initialize`, at its own offset: shown for a table of one property with
/// no nested table, whose key is not one of the two added afterwards.
pub proof fn lemma_prop_read_back(
    table: CRecvTable,
    table_address: usize,
    in_reload: usize,
)
    requires
        table.props@.len() == 1,
        table.props@[0].data_table is None,
        is_stored_type(table.props@[0].prop_type),
        netvar_key(table.table_name@, table.props@[0].prop_name@) != dormancy_key(),
        netvar_key(table.table_name@, table.props@[0].prop_name@) != in_reload_key(),
    ensures
        offset_in(
            initialized_netvars(
                Map::empty(),
                seq![
                    ClientClassTable { recv_table_address: table_address, recv_table: Some(table) },
                ],
                in_reload,
            ),
            table.table_name@,
            table.props@[0].prop_name@,
        ) == prop_offset(table.props@[0], 0),
{
    let classes = seq![
        ClientClassTable { recv_table_address: table_address, recv_table: Some(table) },
    ];
    let props = table.props@;
    assert(classes.drop_last() =~= Seq::<ClientClassTable>::empty());
    assert(props.subrange(1, 1) =~= Seq::<CRecvProp>::empty());
    let key = netvar_key(table.table_name@, props[0].prop_name@);
    let stored = stored_classes(Map::empty(), classes);
    assert(stored_classes(Map::empty(), classes.drop_last()) == Map::<
        Seq<char>,
        usize,
    >::empty());
    assert(classes.last().recv_table == Some(table));
    assert(stored == stored_table(Map::empty(), table.table_name@, table, 0));
    assert(stored == stored_props(Map::empty(), table.table_name@, props, 0));
    let first = stored_prop(Map::empty(), table.table_name@, props[0], 0);
    assert(stored == stored_props(first, table.table_name@, props.subrange(1, 1), 0));
    assert(stored.contains_key(key) && stored[key] == prop_offset(props[0], 0));
}

/// Which kinds `initialize` keeps, for a receive table of one property
/// with no nested table whose key is not one of the two added afterwards:
/// a property of kind `Int`, `Float`, `Vec`, `VecXY` or `String` reads back
/// at its own offset, and one of kind `Array`, `DataTable` or `Int64` is
/// not stored, so its lookup gives 0.
pub proof fn lemma_kinds_read_back(table: CRecvTable, table_address: usize, in_reload: usize)
    requires
        table.props@.len() == 1,
        table.props@[0].data_table is None,
        netvar_key(table.table_name@, table.props@[0].prop_name@) != dormancy_key(),
        netvar_key(table.table_name@, table.props@[0].prop_name@) != in_reload_key(),
    ensures
        ({
            let prop = table.props@[0];
            let got = offset_in(
                initialized_netvars(
                    Map::empty(),
                    seq![
                        ClientClassTable {
                            recv_table_address: table_address,
                            recv_table: Some(table),
                        },
                    ],
                    in_reload,
                ),
                table.table_name@,
                prop.prop_name@,
            );
            &&& (prop.prop_type == EPropType::Int || prop.prop_type == EPropType::Float
                || prop.prop_type == EPropType::Vec || prop.prop_type == EPropType::VecXY
                || prop.prop_type == EPropType::String) ==> got == #[verifier::truncate] (
            prop.offset as usize)
            &&& (prop.prop_type == EPropType::Array || prop.prop_type == EPropType::DataTable
                || prop.prop_type == EPropType::Int64) ==> got == 0
        }),
{
    let classes = seq![
        ClientClassTable { recv_table_address: table_address, recv_table: Some(table) },
    ];
    let props = table.props@;
    let prop = props[0];
    assert(classes.drop_last() =~= Seq::<ClientClassTable>::empty());
    assert(props.subrange(1, 1) =~= Seq::<CRecvProp>::empty());
    let key = netvar_key(table.table_name@, prop.prop_name@);
    let stored = stored_classes(Map::empty(), classes);
    assert(stored_classes(Map::empty(), classes.drop_last()) == Map::<
        Seq<char>,
        usize,
    >::empty());
    assert(classes.last().recv_table == Some(table));
    assert(stored == stored_table(Map::empty(), table.table_name@, table, 0));
    assert(stored == stored_props(Map::empty(), table.table_name@, props, 0));
    let first = stored_prop(Map::empty(), table.table_name@, prop, 0);
    assert(stored == stored_props(first, table.table_name@, props.subrange(1, 1), 0));
    assert(stored == first);
    let full = initialized_netvars(Map::empty(), classes, in_reload);
    assert(full.contains_key(key) == stored.contains_key(key));
    assert(stored.contains_key(key) ==> full[key] == stored[key]);
    if is_stored_type(prop.prop_type) {
        assert(stored[key] == prop_offset(prop, 0));
        let x = #[verifier::truncate] (prop.offset as usize);
        assert(x.wrapping_add(0) == x);
    } else {
        assert(stored =~= Map::<Seq<char>, usize>::empty());
    }
}

} // verus!
