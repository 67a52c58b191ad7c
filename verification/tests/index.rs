use owned_slice::util::{assert_in_bounds, unlikely};
use owned_slice::{Idx, SliceError, TakeSlice};

#[test]
fn zero_is_the_first_position() {
    assert_eq!(<usize as Idx>::zero(), 0usize);
    assert_eq!(<u8 as Idx>::zero(), 0u8);
    assert_eq!(<u16 as Idx>::zero(), 0u16);
    assert_eq!(<u32 as Idx>::zero(), 0u32);
    assert_eq!(<u64 as Idx>::zero(), 0u64);
}

#[test]
fn one_is_a_single_step() {
    assert_eq!(<usize as Idx>::one(), 1usize);
    assert_eq!(<u8 as Idx>::one(), 1u8);
    assert_eq!(<u16 as Idx>::one(), 1u16);
    assert_eq!(<u32 as Idx>::one(), 1u32);
    assert_eq!(<u64 as Idx>::one(), 1u64);
}

#[test]
fn plus_adds_positions() {
    assert_eq!(Idx::plus(3usize, 4usize), 7);
    assert_eq!(Idx::plus(0usize, usize::MAX), usize::MAX);
    assert_eq!(Idx::plus(200u8, 55u8), 255);
    assert_eq!(Idx::plus(65_000u16, 535u16), 65_535);
    assert_eq!(Idx::plus(4_000_000_000u32, 294_967_295u32), u32::MAX);
    assert_eq!(Idx::plus(u64::MAX - 1, 1u64), u64::MAX);
}

#[test]
fn minus_is_the_distance_between_positions() {
    assert_eq!(Idx::minus(7usize, 4usize), 3);
    assert_eq!(Idx::minus(usize::MAX, usize::MAX), 0);
    assert_eq!(Idx::minus(255u8, 55u8), 200);
    assert_eq!(Idx::minus(65_535u16, 535u16), 65_000);
    assert_eq!(Idx::minus(u32::MAX, 1u32), 4_294_967_294);
    assert_eq!(Idx::minus(5u64, 0u64), 5);
}

#[test]
fn less_than_orders_positions() {
    assert!(Idx::less_than(3usize, 4usize));
    assert!(!Idx::less_than(4usize, 4usize));
    assert!(!Idx::less_than(5usize, 4usize));
    assert!(Idx::less_than(0u8, 255u8));
    assert!(!Idx::less_than(255u8, 0u8));
    assert!(Idx::less_than(1u16, 2u16));
    assert!(!Idx::less_than(2u32, 2u32));
    assert!(Idx::less_than(u64::MAX - 1, u64::MAX));
}

#[test]
fn equals_holds_of_the_same_position_only() {
    assert!(Idx::equals(4usize, 4usize));
    assert!(!Idx::equals(3usize, 4usize));
    assert!(Idx::equals(255u8, 255u8));
    assert!(!Idx::equals(0u8, 255u8));
    assert!(Idx::equals(9u16, 9u16));
    assert!(!Idx::equals(1u32, 0u32));
    assert!(Idx::equals(u64::MAX, u64::MAX));
}

#[test]
fn unlikely_passes_its_argument_through() {
    assert!(unlikely(true));
    assert!(!unlikely(false));
}

#[test]
fn assert_in_bounds_accepts_a_range_that_ends_within_the_length() {
    assert_eq!(assert_in_bounds(&(1usize..3), 5), Ok(()));
    assert_eq!(assert_in_bounds(&(0usize..5), 5), Ok(()));
    assert_eq!(assert_in_bounds(&(5usize..5), 5), Ok(()));
    assert_eq!(assert_in_bounds(&(0u8..0), 0), Ok(()));
    assert_eq!(assert_in_bounds(&(7usize..3), 5), Ok(()));
}

#[test]
fn assert_in_bounds_rejects_a_range_that_ends_beyond_the_length() {
    assert_eq!(
        assert_in_bounds(&(1usize..6), 5),
        Err(SliceError::RangeOutOfBounds { start: 1, end: 6, len: 5 })
    );
    assert_eq!(
        assert_in_bounds(&(0u8..1), 0),
        Err(SliceError::RangeOutOfBounds { start: 0, end: 1, len: 0 })
    );
    assert_eq!(
        assert_in_bounds(&(9u32..8), 7),
        Err(SliceError::RangeOutOfBounds { start: 9, end: 8, len: 7 })
    );
}

#[test]
fn an_error_can_be_copied_and_compared() {
    let e = SliceError::IndexOutOfBounds { index: 3u8, len: 2u8 };
    let copy = e;
    assert_eq!(e.clone(), copy);
    assert_ne!(e, SliceError::IndexOutOfBounds { index: 2u8, len: 2u8 });
    assert_ne!(e, SliceError::RangeOutOfBounds { start: 3u8, end: 2u8, len: 2u8 });
    assert_eq!(format!("{:?}", e), "IndexOutOfBounds { index: 3, len: 2 }");
}

// A container of up to 255 bytes whose positions are bytes themselves.
struct Bytes {
    data: Vec<u8>,
}

impl TakeSlice<u8, u8> for Bytes {
    // The model and its law are ghost code: nothing ever runs them.
    fn elems(&self) -> vstd::seq::Seq<u8> {
        unreachable!()
    }

    fn lemma_len_fits(&self) {}

    fn len(&self) -> u8 {
        self.data.len() as u8
    }

    fn get(&self, index: u8) -> &u8 {
        &self.data[index as usize]
    }

    fn get_mut(&mut self, index: u8) -> &mut u8 {
        &mut self.data[index as usize]
    }
}

#[test]
fn a_container_as_long_as_its_index_type_allows_is_sliced_to_its_end() {
    let mut bytes = Bytes { data: (0..255u8).collect() };
    let all = bytes.index_range(0..255).unwrap();
    assert_eq!(all.index(254), Ok(&254));
    assert_eq!(all.index(255), Err(SliceError::IndexOutOfBounds { index: 255, len: 255 }));
    let items = all.iter().collect();
    assert_eq!(items.len(), 255);
    assert_eq!(*items[0], 0);
    assert_eq!(*items[254], 254);
    let tail = bytes.index_range_from(250..).unwrap();
    assert_eq!(tail.iter().collect(), vec![&250, &251, &252, &253, &254]);
    assert_eq!(tail.index(4), Ok(&254));
    assert_eq!(tail.index(5), Err(SliceError::IndexOutOfBounds { index: 5, len: 5 }));
    {
        let mut it = bytes.index_range_mut(253..255).unwrap().iter_mut();
        *it.next().unwrap() = 1;
        *it.next().unwrap() = 2;
        assert!(it.next().is_none());
    }
    assert_eq!(bytes.data[252..], [252, 1, 2]);
    bytes.data.truncate(3);
    assert_eq!(
        bytes.index_range(1..255).err(),
        Some(SliceError::RangeOutOfBounds { start: 1, end: 255, len: 3 })
    );
}

// An index type of its own: the number of a row.
#[derive(Clone, Copy, Debug, PartialEq)]
struct Row(u16);

impl Idx for Row {
    // The model and its laws are ghost code: nothing ever runs them.
    fn pos(self) -> vstd::prelude::nat {
        unreachable!()
    }

    fn max_pos() -> vstd::prelude::nat {
        unreachable!()
    }

    fn lemma_pos_bounded(_a: Self) {}

    fn lemma_pos_injective(_a: Self, _b: Self) {}

    fn zero() -> Self {
        Row(0)
    }

    fn one() -> Self {
        Row(1)
    }

    fn plus(self, rhs: Self) -> Self {
        Row(self.0 + rhs.0)
    }

    fn minus(self, rhs: Self) -> Self {
        Row(self.0 - rhs.0)
    }

    fn less_than(self, rhs: Self) -> bool {
        self.0 < rhs.0
    }

    fn equals(self, rhs: Self) -> bool {
        self.0 == rhs.0
    }
}

struct Table {
    rows: Vec<&'static str>,
}

impl TakeSlice<&'static str, Row> for Table {
    // The model and its law are ghost code: nothing ever runs them.
    fn elems(&self) -> vstd::seq::Seq<&'static str> {
        unreachable!()
    }

    fn lemma_len_fits(&self) {}

    fn len(&self) -> Row {
        Row(self.rows.len() as u16)
    }

    fn get(&self, index: Row) -> &&'static str {
        &self.rows[index.0 as usize]
    }

    fn get_mut(&mut self, index: Row) -> &mut &'static str {
        &mut self.rows[index.0 as usize]
    }
}

#[test]
fn an_index_type_of_its_own_reaches_the_same_elements() {
    let mut table = Table { rows: vec!["a", "b", "c", "d"] };
    let view = table.index_range(Row(1)..Row(3)).unwrap();
    assert_eq!(view.index(Row(0)), Ok(&"b"));
    assert_eq!(view.index(Row(1)), Ok(&"c"));
    assert_eq!(
        view.index(Row(2)),
        Err(SliceError::IndexOutOfBounds { index: Row(2), len: Row(2) })
    );
    assert_eq!(view.iter().collect(), vec![&"b", &"c"]);
    assert_eq!(table.index_range_to(..Row(1)).unwrap().iter().collect(), vec![&"a"]);
    assert_eq!(table.index_range_from(Row(3)..).unwrap().iter().collect(), vec![&"d"]);
    assert_eq!(
        table.index_range(Row(2)..Row(5)).err(),
        Some(SliceError::RangeOutOfBounds { start: Row(2), end: Row(5), len: Row(4) })
    );
    *table.index_range_mut(Row(2)..Row(4)).unwrap().index_mut(Row(1)).unwrap() = "z";
    assert_eq!(table.rows, vec!["a", "b", "c", "z"]);
}
