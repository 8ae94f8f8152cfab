//! Reference/metadata model: a reference to a variably-sized value is two
//! machine words, one holding the address and one holding the metadata (an
//! element count, or nothing for sized shapes). Which word is which is a
//! per-shape constant, discovered once by a sentinel probe.
use vstd::prelude::*;

verus! {

/// Whether the pointer metadata for a given shape is stored before or after
/// the address inside the two-word representation of a reference to it.
#[derive(Debug, Clone, Copy, PartialEq, Eq, Structural)]
pub enum MetadataPosition {
    /// The metadata occupies the first word, the address the second.
    Before,
    /// The address occupies the first word, the metadata the second.
    After,
}

/// The physical two-word form of a reference: nothing but the two words, with
/// no record of which is which. The field order of the shape (a
/// [`MetadataPosition`]) gives the words their meaning.
#[derive(Debug, Clone, Copy, PartialEq, Eq, Structural)]
pub struct RefWords {
    pub word0: usize,
    pub word1: usize,
}

/// Lay out an address and a metadata word in the order the shape prescribes.
pub open spec fn make_words(pos: MetadataPosition, addr: usize, meta: usize) -> RefWords {
    match pos {
        MetadataPosition::Before => RefWords { word0: meta, word1: addr },
        MetadataPosition::After => RefWords { word0: addr, word1: meta },
    }
}

/// The address word of a two-word reference laid out with field order `pos`.
pub open spec fn words_addr(pos: MetadataPosition, w: RefWords) -> usize {
    match pos {
        MetadataPosition::Before => w.word1,
        MetadataPosition::After => w.word0,
    }
}

/// The metadata word of a two-word reference laid out with field order `pos`.
pub open spec fn words_meta(pos: MetadataPosition, w: RefWords) -> usize {
    match pos {
        MetadataPosition::Before => w.word0,
        MetadataPosition::After => w.word1,
    }
}

/// Shapes that references can be taken apart into and rebuilt from: the shape
/// declares its metadata type, how that metadata sits in a machine word, and
/// on which side of the address the word lives.
pub trait Pointee {
    /// The metadata accompanying a reference to this shape: `()` for sized
    /// shapes, an element count for sequence/string-like shapes.
    type Metadata;

    /// Where the metadata word sits relative to the address word.
    spec fn meta_pos() -> MetadataPosition;

    /// The machine word that carries a metadata value.
    spec fn meta_word(m: Self::Metadata) -> usize;

    /// The metadata value a machine word carries.
    spec fn word_meta(w: usize) -> Self::Metadata;

    /// Reading back the word written for a metadata value yields that value.
    proof fn meta_word_round_trip(m: Self::Metadata)
        ensures
            Self::word_meta(Self::meta_word(m)) == m,
    ;

    /// The shape's field order, as a runtime value.
    fn metadata_position() -> (r: MetadataPosition)
        ensures
            r == Self::meta_pos(),
    ;

    /// Encode a metadata value into its machine word.
    fn meta_to_word(m: Self::Metadata) -> (w: usize)
        ensures
            w == Self::meta_word(m),
    ;

    /// Decode a metadata value out of its machine word.
    fn meta_of_word(w: usize) -> (m: Self::Metadata)
        ensures
            m == Self::word_meta(w),
    ;
}

/// Shapes accessed through thin (metadata-free) references.
pub trait Thin: Pointee<Metadata = ()> {

}

impl<T: Pointee<Metadata = ()>> Thin for T {

}

/// A shared reference to a `T`, reduced to its physical two-word form.
pub struct RawRef<T: Pointee> {
    pub words: RefWords,
    pub phantom: core::marker::PhantomData<T>,
}

/// An exclusive reference to a `T`, reduced to its physical two-word form.
pub struct RawMut<T: Pointee> {
    pub words: RefWords,
    pub phantom: core::marker::PhantomData<T>,
}

/// A reference to a `T` whose address is known not to be null, reduced to its
/// physical two-word form.
pub struct RawNonNull<T: Pointee> {
    pub words: RefWords,
    pub phantom: core::marker::PhantomData<T>,
}

/// The reference a given address and metadata encode, word for word.
pub open spec fn spec_from_raw_parts<T: Pointee>(addr: usize, meta: T::Metadata) -> RawRef<T> {
    RawRef { words: make_words(T::meta_pos(), addr, T::meta_word(meta)), phantom: core::marker::PhantomData }
}

/// The address of a reference in two-word form.
pub open spec fn spec_addr<T: Pointee>(r: RawRef<T>) -> usize {
    words_addr(T::meta_pos(), r.words)
}

/// The metadata of a reference in two-word form.
pub open spec fn spec_metadata<T: Pointee>(r: RawRef<T>) -> T::Metadata {
    T::word_meta(words_meta(T::meta_pos(), r.words))
}

/// Lay the two words out as the shape prescribes, at runtime.
fn make_words_exec(pos: MetadataPosition, addr: usize, meta: usize) -> (w: RefWords)
    ensures
        w == make_words(pos, addr, meta),
{
    match pos {
        MetadataPosition::Before => RefWords { word0: meta, word1: addr },
        MetadataPosition::After => RefWords { word0: addr, word1: meta },
    }
}

/// Pick the address word out at runtime.
fn words_addr_exec(pos: MetadataPosition, w: &RefWords) -> (a: usize)
    ensures
        a == words_addr(pos, *w),
{
    match pos {
        MetadataPosition::Before => w.word1,
        MetadataPosition::After => w.word0,
    }
}

/// Pick the metadata word out at runtime.
fn words_meta_exec(pos: MetadataPosition, w: &RefWords) -> (m: usize)
    ensures
        m == words_meta(pos, *w),
{
    match pos {
        MetadataPosition::Before => w.word0,
        MetadataPosition::After => w.word1,
    }
}

/// Get the metadata of a reference.
pub fn metadata<T: Pointee>(r: &RawRef<T>) -> (m: T::Metadata)
    ensures
        m == spec_metadata(*r),
{
    T::meta_of_word(words_meta_exec(T::metadata_position(), &r.words))
}

/// Build a shared reference to a `T` from an address and its metadata.
pub fn from_raw_parts<T: Pointee>(addr: usize, meta: T::Metadata) -> (r: RawRef<T>)
    ensures
        r == spec_from_raw_parts::<T>(addr, meta),
{
    let words = make_words_exec(T::metadata_position(), addr, T::meta_to_word(meta));
    RawRef { words, phantom: core::marker::PhantomData }
}

/// Build an exclusive reference to a `T` from an address and its metadata.
pub fn from_raw_parts_mut<T: Pointee>(addr: usize, meta: T::Metadata) -> (r: RawMut<T>)
    ensures
        r.words == spec_from_raw_parts::<T>(addr, meta).words,
{
    let words = make_words_exec(T::metadata_position(), addr, T::meta_to_word(meta));
    RawMut { words, phantom: core::marker::PhantomData }
}

/// Build a non-null reference to a `T` from a non-zero address and metadata.
pub fn from_raw_parts_nonnull<T: Pointee>(addr: usize, meta: T::Metadata) -> (r: RawNonNull<T>)
    requires
        addr != 0,
    ensures
        r.words == spec_from_raw_parts::<T>(addr, meta).words,
        words_addr(T::meta_pos(), r.words) != 0,
{
    proof {
        T::meta_word_round_trip(meta);
    }
    let words = make_words_exec(T::metadata_position(), addr, T::meta_to_word(meta));
    RawNonNull { words, phantom: core::marker::PhantomData }
}

/// Take a shared reference apart into its address and metadata.
pub fn to_raw_parts<T: Pointee>(r: &RawRef<T>) -> (parts: (usize, T::Metadata))
    ensures
        parts.0 == spec_addr(*r),
        parts.1 == spec_metadata(*r),
{
    let pos = T::metadata_position();
    (words_addr_exec(pos, &r.words), T::meta_of_word(words_meta_exec(pos, &r.words)))
}

/// Take an exclusive reference apart into its address and metadata.
pub fn to_raw_parts_mut<T: Pointee>(r: &RawMut<T>) -> (parts: (usize, T::Metadata))
    ensures
        parts.0 == words_addr(T::meta_pos(), r.words),
        parts.1 == T::word_meta(words_meta(T::meta_pos(), r.words)),
{
    let pos = T::metadata_position();
    (words_addr_exec(pos, &r.words), T::meta_of_word(words_meta_exec(pos, &r.words)))
}

/// Take a non-null reference apart into its address and metadata.
pub fn to_raw_parts_nonnull<T: Pointee>(r: &RawNonNull<T>) -> (parts: (usize, T::Metadata))
    requires
        words_addr(T::meta_pos(), r.words) != 0,
    ensures
        parts.0 == words_addr(T::meta_pos(), r.words),
        parts.1 == T::word_meta(words_meta(T::meta_pos(), r.words)),
        parts.0 != 0,
{
    let pos = T::metadata_position();
    (words_addr_exec(pos, &r.words), T::meta_of_word(words_meta_exec(pos, &r.words)))
}

/// Metadata transplant: a reference to a `U` whose address comes from
/// `addr_src` and whose metadata is copied from an existing reference to `U`.
pub fn with_metadata_of<T: Pointee, U: Pointee>(addr_src: &RawRef<T>, meta_src: &RawRef<U>) -> (r: RawRef<U>)
    ensures
        r == spec_from_raw_parts::<U>(spec_addr(*addr_src), spec_metadata(*meta_src)),
{
    let addr = words_addr_exec(T::metadata_position(), &addr_src.words);
    from_raw_parts::<U>(addr, metadata(meta_src))
}

/// Metadata transplant for exclusive references.
pub fn with_metadata_of_mut<T: Pointee, U: Pointee>(addr_src: &RawMut<T>, meta_src: &RawRef<U>) -> (r: RawMut<U>)
    ensures
        r.words == spec_from_raw_parts::<U>(
            words_addr(T::meta_pos(), addr_src.words),
            spec_metadata(*meta_src),
        ).words,
{
    let addr = words_addr_exec(T::metadata_position(), &addr_src.words);
    from_raw_parts_mut::<U>(addr, metadata(meta_src))
}

/// Metadata transplant for non-null references.
pub fn with_metadata_of_nonnull<T: Pointee, U: Pointee>(addr_src: &RawNonNull<T>, meta_src: &RawRef<U>) -> (r: RawNonNull<U>)
    requires
        words_addr(T::meta_pos(), addr_src.words) != 0,
    ensures
        r.words == spec_from_raw_parts::<U>(
            words_addr(T::meta_pos(), addr_src.words),
            spec_metadata(*meta_src),
        ).words,
        words_addr(U::meta_pos(), r.words) != 0,
{
    let addr = words_addr_exec(T::metadata_position(), &addr_src.words);
    from_raw_parts_nonnull::<U>(addr, metadata(meta_src))
}

/// Decomposing a freshly composed reference gives back exactly the address
/// and metadata it was composed from, for every shape and every pair.
pub proof fn lemma_raw_parts_round_trip<T: Pointee>(addr: usize, meta: T::Metadata)
    ensures
        spec_addr(spec_from_raw_parts::<T>(addr, meta)) == addr,
        spec_metadata(spec_from_raw_parts::<T>(addr, meta)) == meta,
{
    T::meta_word_round_trip(meta);
}

impl MetadataPosition {
    /// Field-order discovery for sequence shapes: lay a recognizable non-null
    /// address sentinel and a distinguishable metadata sentinel out as a
    /// reference to `[T]`, then inspect which word holds which sentinel. The
    /// result always equals the shape's declared field order.
    pub fn for_slice<T>() -> (r: MetadataPosition)
        ensures
            r == <Vec<T> as Pointee>::meta_pos(),
    {
        let probe = make_words_exec(<Vec<T> as Pointee>::metadata_position(), 0xFF, 0x00);
        if probe.word0 == 0x00 && probe.word1 == 0xFF {
            MetadataPosition::Before
        } else {
            MetadataPosition::After
        }
    }
}

/// Field-order determinism: independent derivations of the field order for
/// the same sequence shape always agree, since each equals the shape's one
/// declared constant.
pub proof fn lemma_field_order_deterministic<T>(r1: MetadataPosition, r2: MetadataPosition)
    requires
        r1 == <Vec<T> as Pointee>::meta_pos(),
        r2 == <Vec<T> as Pointee>::meta_pos(),
    ensures
        r1 == r2,
{
}

impl<T> Pointee for Vec<T> {
    type Metadata = usize;

    open spec fn meta_pos() -> MetadataPosition {
        MetadataPosition::After
    }

    open spec fn meta_word(m: usize) -> usize {
        m
    }

    open spec fn word_meta(w: usize) -> usize {
        w
    }

    proof fn meta_word_round_trip(m: usize) {
    }

    fn metadata_position() -> MetadataPosition {
        MetadataPosition::After
    }

    fn meta_to_word(m: usize) -> usize {
        m
    }

    fn meta_of_word(w: usize) -> usize {
        w
    }
}

impl Pointee for String {
    type Metadata = usize;

    open spec fn meta_pos() -> MetadataPosition {
        MetadataPosition::After
    }

    open spec fn meta_word(m: usize) -> usize {
        m
    }

    open spec fn word_meta(w: usize) -> usize {
        w
    }

    proof fn meta_word_round_trip(m: usize) {
    }

    fn metadata_position() -> MetadataPosition {
        MetadataPosition::After
    }

    fn meta_to_word(m: usize) -> usize {
        m
    }

    fn meta_of_word(w: usize) -> usize {
        w
    }
}

impl Pointee for () {
    type Metadata = ();

    open spec fn meta_pos() -> MetadataPosition {
        MetadataPosition::Before
    }

    open spec fn meta_word(m: ()) -> usize {
        0
    }

    open spec fn word_meta(w: usize) -> () {
        ()
    }

    proof fn meta_word_round_trip(m: ()) {
    }

    fn metadata_position() -> MetadataPosition {
        MetadataPosition::Before
    }

    fn meta_to_word(m: ()) -> usize {
        0
    }

    fn meta_of_word(w: usize) -> () {
        ()
    }
}

impl Pointee for u8 {
    type Metadata = ();

    open spec fn meta_pos() -> MetadataPosition {
        MetadataPosition::Before
    }

    open spec fn meta_word(m: ()) -> usize {
        0
    }

    open spec fn word_meta(w: usize) -> () {
        ()
    }

    proof fn meta_word_round_trip(m: ()) {
    }

    fn metadata_position() -> MetadataPosition {
        MetadataPosition::Before
    }

    fn meta_to_word(m: ()) -> usize {
        0
    }

    fn meta_of_word(w: usize) -> () {
        ()
    }
}

impl Pointee for u32 {
    type Metadata = ();

    open spec fn meta_pos() -> MetadataPosition {
        MetadataPosition::Before
    }

    open spec fn meta_word(m: ()) -> usize {
        0
    }

    open spec fn word_meta(w: usize) -> () {
        ()
    }

    proof fn meta_word_round_trip(m: ()) {
    }

    fn metadata_position() -> MetadataPosition {
        MetadataPosition::Before
    }

    fn meta_to_word(m: ()) -> usize {
        0
    }

    fn meta_of_word(w: usize) -> () {
        ()
    }
}

impl Pointee for u64 {
    type Metadata = ();

    open spec fn meta_pos() -> MetadataPosition {
        MetadataPosition::Before
    }

    open spec fn meta_word(m: ()) -> usize {
        0
    }

    open spec fn word_meta(w: usize) -> () {
        ()
    }

    proof fn meta_word_round_trip(m: ()) {
    }

    fn metadata_position() -> MetadataPosition {
        MetadataPosition::Before
    }

    fn meta_to_word(m: ()) -> usize {
        0
    }

    fn meta_of_word(w: usize) -> () {
        ()
    }
}

impl Pointee for bool {
    type Metadata = ();

    open spec fn meta_pos() -> MetadataPosition {
        MetadataPosition::Before
    }

    open spec fn meta_word(m: ()) -> usize {
        0
    }

    open spec fn word_meta(w: usize) -> () {
        ()
    }

    proof fn meta_word_round_trip(m: ()) {
    }

    fn metadata_position() -> MetadataPosition {
        MetadataPosition::Before
    }

    fn meta_to_word(m: ()) -> usize {
        0
    }

    fn meta_of_word(w: usize) -> () {
        ()
    }
}

impl Pointee for char {
    type Metadata = ();

    open spec fn meta_pos() -> MetadataPosition {
        MetadataPosition::Before
    }

    open spec fn meta_word(m: ()) -> usize {
        0
    }

    open spec fn word_meta(w: usize) -> () {
        ()
    }

    proof fn meta_word_round_trip(m: ()) {
    }

    fn metadata_position() -> MetadataPosition {
        MetadataPosition::Before
    }

    fn meta_to_word(m: ()) -> usize {
        0
    }

    fn meta_of_word(w: usize) -> () {
        ()
    }
}

} // verus!
