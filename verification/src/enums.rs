//! Direct2D enumerations and their raw `u32` encodings.
use vstd::prelude::*;

verus! {

/// An enumeration that Direct2D carries as a raw `u32`.
pub trait CheckedEnum: Sized {
    /// The enumerator whose raw value is `value`, if there is one.
    spec fn spec_from_u32(value: u32) -> Option<Self>;

    /// The raw value of an enumerator.
    spec fn spec_to_u32(self) -> u32;

    fn to_u32(self) -> (value: u32)
        ensures
            value == self.spec_to_u32(),
    ;

    fn from_u32(value: u32) -> (res: Option<Self>)
        ensures
            res == Self::spec_from_u32(value),
    ;

    /// Decoding the raw value of an enumerator gives that enumerator back.
    proof fn lemma_from_to_u32(self)
        ensures
            Self::spec_from_u32(self.spec_to_u32()) == Some(self),
    ;

    /// A raw value decodes to an enumerator only if it is that enumerator's raw value.
    proof fn lemma_to_from_u32(value: u32)
        ensures
            Self::spec_from_u32(value) matches Some(e) ==> e.spec_to_u32() == value,
    ;
}

/// How the edges of non-text primitives are rendered (`D2D1_ANTIALIAS_MODE`).
#[derive(Copy, Clone, Debug, PartialEq, Eq, PartialOrd, Ord, Hash, Structural)]
pub enum AntialiasMode {
    PerPrimitive,
    Aliased,
}

impl AntialiasMode {
    pub open spec fn raw(self) -> u32 {
        match self {
            AntialiasMode::PerPrimitive => 0,
            AntialiasMode::Aliased => 1,
        }
    }

    pub open spec fn from_raw(value: u32) -> Option<AntialiasMode> {
        if value == 0 {
            Some(AntialiasMode::PerPrimitive)
        } else if value == 1 {
            Some(AntialiasMode::Aliased)
        } else {
            None
        }
    }

    /// The raw `D2D1_ANTIALIAS_MODE` value of this mode.
    pub fn to_u32(self) -> (value: u32)
        ensures
            value == self.raw(),
    {
        match self {
            AntialiasMode::PerPrimitive => 0,
            AntialiasMode::Aliased => 1,
        }
    }

    /// The mode whose raw value is `value`; `None` for a value Direct2D does not define.
    pub fn from_u32(value: u32) -> (res: Option<AntialiasMode>)
        ensures
            res == AntialiasMode::from_raw(value),
    {
        match value {
            0 => Some(AntialiasMode::PerPrimitive),
            1 => Some(AntialiasMode::Aliased),
            _ => None,
        }
    }
}

impl CheckedEnum for AntialiasMode {
    open spec fn spec_from_u32(value: u32) -> Option<Self> {
        AntialiasMode::from_raw(value)
    }

    open spec fn spec_to_u32(self) -> u32 {
        self.raw()
    }

    fn to_u32(self) -> (value: u32) {
        AntialiasMode::to_u32(self)
    }

    fn from_u32(value: u32) -> (res: Option<Self>) {
        AntialiasMode::from_u32(value)
    }

    proof fn lemma_from_to_u32(self) {
    }

    proof fn lemma_to_from_u32(value: u32) {
    }
}

/// How a bitmap is resampled when it is scaled or rotated
/// (`D2D1_BITMAP_INTERPOLATION_MODE`).
#[derive(Copy, Clone, Debug, PartialEq, Eq, PartialOrd, Ord, Hash, Structural)]
pub enum BitmapInterpolationMode {
    NearestNeighbor,
    Linear,
}

impl BitmapInterpolationMode {
    pub open spec fn raw(self) -> u32 {
        match self {
            BitmapInterpolationMode::NearestNeighbor => 0,
            BitmapInterpolationMode::Linear => 1,
        }
    }

    pub open spec fn from_raw(value: u32) -> Option<BitmapInterpolationMode> {
        if value == 0 {
            Some(BitmapInterpolationMode::NearestNeighbor)
        } else if value == 1 {
            Some(BitmapInterpolationMode::Linear)
        } else {
            None
        }
    }

    /// The raw `D2D1_BITMAP_INTERPOLATION_MODE` value of this mode.
    pub fn to_u32(self) -> (value: u32)
        ensures
            value == self.raw(),
    {
        match self {
            BitmapInterpolationMode::NearestNeighbor => 0,
            BitmapInterpolationMode::Linear => 1,
        }
    }

    /// The mode whose raw value is `value`; `None` for a value Direct2D does not define.
    pub fn from_u32(value: u32) -> (res: Option<BitmapInterpolationMode>)
        ensures
            res == BitmapInterpolationMode::from_raw(value),
    {
        match value {
            0 => Some(BitmapInterpolationMode::NearestNeighbor),
            1 => Some(BitmapInterpolationMode::Linear),
            _ => None,
        }
    }
}

impl CheckedEnum for BitmapInterpolationMode {
    open spec fn spec_from_u32(value: u32) -> Option<Self> {
        BitmapInterpolationMode::from_raw(value)
    }

    open spec fn spec_to_u32(self) -> u32 {
        self.raw()
    }

    fn to_u32(self) -> (value: u32) {
        BitmapInterpolationMode::to_u32(self)
    }

    fn from_u32(value: u32) -> (res: Option<Self>) {
        BitmapInterpolationMode::from_u32(value)
    }

    proof fn lemma_from_to_u32(self) {
    }

    proof fn lemma_to_from_u32(value: u32) {
    }
}

/// A raw enumeration value as Direct2D reported it, which need not name any
/// enumerator of `T`.
pub struct UncheckedEnum<T> {
    pub value: u32,
    pub marker: std::marker::PhantomData<T>,
}

impl<T> View for UncheckedEnum<T> {
    type V = u32;

    /// The raw value.
    open spec fn view(&self) -> u32 {
        self.value
    }
}

impl<T: CheckedEnum> UncheckedEnum<T> {
    /// Wraps a raw value.
    pub fn new(value: u32) -> (res: UncheckedEnum<T>)
        ensures
            res@ == value,
    {
        UncheckedEnum { value, marker: std::marker::PhantomData }
    }

    /// The enumerator that the raw value names, if it names one.
    pub fn as_enum(&self) -> (res: Option<T>)
        ensures
            res == T::spec_from_u32(self@),
    {
        T::from_u32(self.value)
    }
}

} // verus!

verus! {

/// Options for drawing text (`D2D1_DRAW_TEXT_OPTIONS`), a set of bit flags.
#[derive(Copy, Clone, PartialEq, Eq, Hash, Structural)]
pub struct DrawTextOptions(pub u32);

/// Every bit that names an option of `DrawTextOptions`.
pub const DRAW_TEXT_OPTIONS_MASK: u32 = 7;

impl DrawTextOptions {
    /// No option.
    pub fn none() -> (res: DrawTextOptions)
        ensures
            res.0 == 0,
    {
        DrawTextOptions(0)
    }

    /// Do not snap text to pixel boundaries.
    pub fn no_snap() -> (res: DrawTextOptions)
        ensures
            res.0 == 1,
    {
        DrawTextOptions(1)
    }

    /// Clip text to the layout rectangle.
    pub fn clip() -> (res: DrawTextOptions)
        ensures
            res.0 == 2,
    {
        DrawTextOptions(2)
    }

    /// Render color versions of glyphs where the font has them.
    pub fn enable_color_font() -> (res: DrawTextOptions)
        ensures
            res.0 == 4,
    {
        DrawTextOptions(4)
    }

    /// Whether every bit of `flag` is set in `self`.
    pub open spec fn has(self, flag: DrawTextOptions) -> bool {
        self.0 & flag.0 == flag.0
    }

    /// Whether `self` sets no bit outside the defined options.
    pub open spec fn valid(self) -> bool {
        self.0 & !DRAW_TEXT_OPTIONS_MASK == 0
    }

    /// Whether every bit of `flag` is set in `self`.
    pub fn is_set(self, flag: DrawTextOptions) -> (res: bool)
        ensures
            res == self.has(flag),
    {
        self.0 & flag.0 == flag.0
    }

    /// Clears the bits of `flag` and keeps every other bit.
    pub fn clear(&mut self, flag: DrawTextOptions)
        ensures
            final(self).0 == old(self).0 & !flag.0,
    {
        self.0 = self.0 & !flag.0;
    }

    /// Whether `self` sets no bit outside the defined options.
    pub fn validate(self) -> (res: bool)
        ensures
            res == self.valid(),
    {
        self.0 & !DRAW_TEXT_OPTIONS_MASK == 0
    }
}

/// The names of the options set in `bits`, in the order they are declared.
pub open spec fn option_names(bits: u32) -> Seq<Seq<char>> {
    (if bits & 1 == 1 { seq!["NO_SNAP"@] } else { Seq::empty() }) + (if bits & 2 == 2 {
        seq!["CLIP"@]
    } else {
        Seq::empty()
    }) + (if bits & 4 == 4 { seq!["ENABLE_COLOR_FONT"@] } else { Seq::empty() })
}

/// `names` joined with `sep` between neighbours.
pub open spec fn join_names(names: Seq<Seq<char>>, sep: Seq<char>) -> Seq<char>
    decreases names.len(),
{
    if names.len() == 0 {
        Seq::empty()
    } else if names.len() == 1 {
        names[0]
    } else {
        join_names(names.drop_last(), sep) + sep + names.last()
    }
}

/// The debug text of a `DrawTextOptions`: its type name, then the names of
/// the options set, joined by `" | "`, or `NONE` where none is, in brackets.
pub open spec fn options_debug_text(bits: u32) -> Seq<char> {
    let names = option_names(bits);
    "DrawTextOptions("@ + (if names.len() == 0 {
        "NONE"@
    } else {
        join_names(names, " | "@)
    }) + ")"@
}

/// Appends `name` to a debug text under construction whose names so far are `names`.
fn push_option_name(out: &mut String, first: &mut bool, name: &str, Ghost(names): Ghost<Seq<Seq<char>>>)
    requires
        old(out)@ == "DrawTextOptions("@ + join_names(names, " | "@),
        *old(first) == (names.len() == 0),
    ensures
        final(out)@ == "DrawTextOptions("@ + join_names(names.push(name@), " | "@),
        *final(first) == false,
{
    assert(names.push(name@).drop_last() =~= names);
    if *first {
        *first = false;
    } else {
        out.append(" | ");
    }
    out.append(name);
    assert(final(out)@ =~= "DrawTextOptions("@ + join_names(names.push(name@), " | "@));
}

impl DrawTextOptions {
    /// The text that a debug print of these options shows, such as
    /// `DrawTextOptions(NO_SNAP | CLIP)`; bits outside the defined options are not shown.
    pub fn debug_string(&self) -> (res: String)
        ensures
            res@ == options_debug_text(self.0),
    {
        let mut out = String::from_str("DrawTextOptions(");
        let mut first = true;
        let ghost mut names: Seq<Seq<char>> = Seq::empty();
        assert(out@ =~= "DrawTextOptions("@ + join_names(names, " | "@));
        if self.is_set(DrawTextOptions::no_snap()) {
            push_option_name(&mut out, &mut first, "NO_SNAP", Ghost(names));
            proof { names = names.push("NO_SNAP"@); }
        }
        if self.is_set(DrawTextOptions::clip()) {
            push_option_name(&mut out, &mut first, "CLIP", Ghost(names));
            proof { names = names.push("CLIP"@); }
        }
        if self.is_set(DrawTextOptions::enable_color_font()) {
            push_option_name(&mut out, &mut first, "ENABLE_COLOR_FONT", Ghost(names));
            proof { names = names.push("ENABLE_COLOR_FONT"@); }
        }
        assert(names =~= option_names(self.0));
        if first {
            out.append("NONE");
        }
        out.append(")");
        out
    }
}

impl core::ops::Not for DrawTextOptions {
    type Output = DrawTextOptions;

    fn not(self) -> (res: DrawTextOptions) {
        DrawTextOptions(!self.0)
    }
}

impl vstd::std_specs::ops::NotSpecImpl for DrawTextOptions {
    open spec fn obeys_not_spec() -> bool {
        true
    }

    open spec fn not_req(self) -> bool {
        true
    }

    open spec fn not_spec(self) -> DrawTextOptions {
        DrawTextOptions(!self.0)
    }
}

impl core::ops::BitAnd for DrawTextOptions {
    type Output = DrawTextOptions;

    fn bitand(self, rhs: DrawTextOptions) -> (res: DrawTextOptions) {
        DrawTextOptions(self.0 & rhs.0)
    }
}

impl vstd::std_specs::ops::BitAndSpecImpl for DrawTextOptions {
    open spec fn obeys_bitand_spec() -> bool {
        true
    }

    open spec fn bitand_req(self, rhs: DrawTextOptions) -> bool {
        true
    }

    open spec fn bitand_spec(self, rhs: DrawTextOptions) -> DrawTextOptions {
        DrawTextOptions(self.0 & rhs.0)
    }
}

impl core::ops::BitAndAssign for DrawTextOptions {
    fn bitand_assign(&mut self, rhs: DrawTextOptions)
        ensures
            final(self).0 == old(self).0 & rhs.0,
    {
        self.0 = self.0 & rhs.0;
    }
}

impl core::ops::BitOr for DrawTextOptions {
    type Output = DrawTextOptions;

    fn bitor(self, rhs: DrawTextOptions) -> (res: DrawTextOptions) {
        DrawTextOptions(self.0 | rhs.0)
    }
}

impl vstd::std_specs::ops::BitOrSpecImpl for DrawTextOptions {
    open spec fn obeys_bitor_spec() -> bool {
        true
    }

    open spec fn bitor_req(self, rhs: DrawTextOptions) -> bool {
        true
    }

    open spec fn bitor_spec(self, rhs: DrawTextOptions) -> DrawTextOptions {
        DrawTextOptions(self.0 | rhs.0)
    }
}

impl core::ops::BitOrAssign for DrawTextOptions {
    fn bitor_assign(&mut self, rhs: DrawTextOptions)
        ensures
            final(self).0 == old(self).0 | rhs.0,
    {
        self.0 = self.0 | rhs.0;
    }
}

impl core::ops::BitXor for DrawTextOptions {
    type Output = DrawTextOptions;

    fn bitxor(self, rhs: DrawTextOptions) -> (res: DrawTextOptions) {
        DrawTextOptions(self.0 ^ rhs.0)
    }
}

impl vstd::std_specs::ops::BitXorSpecImpl for DrawTextOptions {
    open spec fn obeys_bitxor_spec() -> bool {
        true
    }

    open spec fn bitxor_req(self, rhs: DrawTextOptions) -> bool {
        true
    }

    open spec fn bitxor_spec(self, rhs: DrawTextOptions) -> DrawTextOptions {
        DrawTextOptions(self.0 ^ rhs.0)
    }
}

impl core::ops::BitXorAssign for DrawTextOptions {
    fn bitxor_assign(&mut self, rhs: DrawTextOptions)
        ensures
            final(self).0 == old(self).0 ^ rhs.0,
    {
        self.0 = self.0 ^ rhs.0;
    }
}

} // verus!

verus! {

/// Every set of options has the empty option set in it.
pub proof fn lemma_none_is_always_set(x: DrawTextOptions)
    ensures
        x.has(DrawTextOptions(0)),
{
    let b = x.0;
    assert(b & 0 == 0) by (bit_vector);
}

/// Clearing `flag` leaves none of its bits set and keeps every option that
/// shares no bit with it.
pub proof fn lemma_clear_unsets(x: DrawTextOptions, flag: DrawTextOptions, other: DrawTextOptions)
    ensures
        DrawTextOptions(x.0 & !flag.0).has(flag) <==> flag.0 == 0,
        other.0 & flag.0 == 0 ==> (DrawTextOptions(x.0 & !flag.0).has(other) <==> x.has(other)),
{
    let (a, f, g) = (x.0, flag.0, other.0);
    assert((a & !f) & f == f <==> f == 0) by (bit_vector);
    assert(g & f == 0 ==> (((a & !f) & g == g) <==> (a & g == g))) by (bit_vector);
}

/// Joining `flag` into a set of options sets it and keeps every option already set.
pub proof fn lemma_union_sets(x: DrawTextOptions, flag: DrawTextOptions, other: DrawTextOptions)
    ensures
        DrawTextOptions(x.0 | flag.0).has(flag),
        x.has(other) ==> DrawTextOptions(x.0 | flag.0).has(other),
{
    let (a, f, g) = (x.0, flag.0, other.0);
    assert((a | f) & f == f) by (bit_vector);
    assert(a & g == g ==> (a | f) & g == g) by (bit_vector);
}

/// The defined options are valid, and the operations that combine options
/// keep valid sets valid.
pub proof fn lemma_valid_closed(x: DrawTextOptions, y: DrawTextOptions)
    ensures
        DrawTextOptions(0).valid(),
        DrawTextOptions(1).valid(),
        DrawTextOptions(2).valid(),
        DrawTextOptions(4).valid(),
        x.valid() && y.valid() ==> DrawTextOptions(x.0 | y.0).valid(),
        x.valid() && y.valid() ==> DrawTextOptions(x.0 ^ y.0).valid(),
        x.valid() ==> DrawTextOptions(x.0 & y.0).valid(),
        x.valid() ==> DrawTextOptions(x.0 & !y.0).valid(),
{
    let (a, b) = (x.0, y.0);
    assert(0u32 & !7u32 == 0 && 1u32 & !7u32 == 0 && 2u32 & !7u32 == 0 && 4u32 & !7u32 == 0)
        by (bit_vector);
    assert(a & !7u32 == 0 && b & !7u32 == 0 ==> (a | b) & !7u32 == 0) by (bit_vector);
    assert(a & !7u32 == 0 && b & !7u32 == 0 ==> (a ^ b) & !7u32 == 0) by (bit_vector);
    assert(a & !7u32 == 0 ==> (a & b) & !7u32 == 0) by (bit_vector);
    assert(a & !7u32 == 0 ==> (a & !b) & !7u32 == 0) by (bit_vector);
}

/// Negating twice gives the options back.
pub proof fn lemma_not_not(x: DrawTextOptions)
    ensures
        DrawTextOptions(!(!x.0)) == x,
{
    let a = x.0;
    assert(!(!a) == a) by (bit_vector);
}

} // verus!

verus! {

/// The debug text of every set of options, by the defined option bits it
/// sets: `NONE` appears exactly when no defined option is set, and otherwise
/// the names of the set options appear in declared order, joined by `" | "`,
/// with nothing else between the brackets. Bits outside the defined options
/// do not show.
pub proof fn lemma_debug_text_cases(bits: u32)
    ensures
        bits & 7 == 0 ==> options_debug_text(bits) == "DrawTextOptions(NONE)"@,
        bits & 7 == 1 ==> options_debug_text(bits) == "DrawTextOptions(NO_SNAP)"@,
        bits & 7 == 2 ==> options_debug_text(bits) == "DrawTextOptions(CLIP)"@,
        bits & 7 == 3 ==> options_debug_text(bits) == "DrawTextOptions(NO_SNAP | CLIP)"@,
        bits & 7 == 4 ==> options_debug_text(bits) == "DrawTextOptions(ENABLE_COLOR_FONT)"@,
        bits & 7 == 5 ==> options_debug_text(bits)
            == "DrawTextOptions(NO_SNAP | ENABLE_COLOR_FONT)"@,
        bits & 7 == 6 ==> options_debug_text(bits) == "DrawTextOptions(CLIP | ENABLE_COLOR_FONT)"@,
        bits & 7 == 7 ==> options_debug_text(bits)
            == "DrawTextOptions(NO_SNAP | CLIP | ENABLE_COLOR_FONT)"@,
{
    reveal_strlit("DrawTextOptions(");
    reveal_strlit(")");
    reveal_strlit("NONE");
    reveal_strlit("NO_SNAP");
    reveal_strlit("CLIP");
    reveal_strlit("ENABLE_COLOR_FONT");
    reveal_strlit(" | ");
    reveal_strlit("DrawTextOptions(NONE)");
    reveal_strlit("DrawTextOptions(NO_SNAP)");
    reveal_strlit("DrawTextOptions(CLIP)");
    reveal_strlit("DrawTextOptions(NO_SNAP | CLIP)");
    reveal_strlit("DrawTextOptions(ENABLE_COLOR_FONT)");
    reveal_strlit("DrawTextOptions(NO_SNAP | ENABLE_COLOR_FONT)");
    reveal_strlit("DrawTextOptions(CLIP | ENABLE_COLOR_FONT)");
    reveal_strlit("DrawTextOptions(NO_SNAP | CLIP | ENABLE_COLOR_FONT)");
    reveal_with_fuel(join_names, 3);
    let b = bits;
    assert((b & 1 == 1) == (b & 7 == 1 || b & 7 == 3 || b & 7 == 5 || b & 7 == 7)) by (bit_vector);
    assert((b & 2 == 2) == (b & 7 == 2 || b & 7 == 3 || b & 7 == 6 || b & 7 == 7)) by (bit_vector);
    assert((b & 4 == 4) == (b & 7 == 4 || b & 7 == 5 || b & 7 == 6 || b & 7 == 7)) by (bit_vector);
    assert(b & 7 <= 7) by (bit_vector);
    let names = option_names(bits);
    let text = options_debug_text(bits);
    if bits & 7 == 0 {
        assert(names =~= Seq::<Seq<char>>::empty());
        assert(text =~= "DrawTextOptions(NONE)"@);
    } else if bits & 7 == 1 {
        assert(names =~= seq!["NO_SNAP"@]);
        assert(text =~= "DrawTextOptions(NO_SNAP)"@);
    } else if bits & 7 == 2 {
        assert(names =~= seq!["CLIP"@]);
        assert(text =~= "DrawTextOptions(CLIP)"@);
    } else if bits & 7 == 3 {
        assert(names =~= seq!["NO_SNAP"@, "CLIP"@]);
        assert(names.drop_last() =~= seq!["NO_SNAP"@]);
        assert(text =~= "DrawTextOptions(NO_SNAP | CLIP)"@);
    } else if bits & 7 == 4 {
        assert(names =~= seq!["ENABLE_COLOR_FONT"@]);
        assert(text =~= "DrawTextOptions(ENABLE_COLOR_FONT)"@);
    } else if bits & 7 == 5 {
        assert(names =~= seq!["NO_SNAP"@, "ENABLE_COLOR_FONT"@]);
        assert(names.drop_last() =~= seq!["NO_SNAP"@]);
        assert(text =~= "DrawTextOptions(NO_SNAP | ENABLE_COLOR_FONT)"@);
    } else if bits & 7 == 6 {
        assert(names =~= seq!["CLIP"@, "ENABLE_COLOR_FONT"@]);
        assert(names.drop_last() =~= seq!["CLIP"@]);
        assert(text =~= "DrawTextOptions(CLIP | ENABLE_COLOR_FONT)"@);
    } else {
        assert(names =~= seq!["NO_SNAP"@, "CLIP"@, "ENABLE_COLOR_FONT"@]);
        assert(names.drop_last() =~= seq!["NO_SNAP"@, "CLIP"@]);
        assert(names.drop_last().drop_last() =~= seq!["NO_SNAP"@]);
        assert(text =~= "DrawTextOptions(NO_SNAP | CLIP | ENABLE_COLOR_FONT)"@);
    }
}

/// A set of options is valid exactly when it is a union of the defined
/// options `NO_SNAP` (1), `CLIP` (2) and `ENABLE_COLOR_FONT` (4): its value is
/// below 8, and it equals the union of the defined options it has.
pub proof fn lemma_valid_is_union_of_options(x: DrawTextOptions)
    ensures
        x.valid() <==> x.0 < 8,
        x.valid() <==> x.0 == (x.0 & 1) | (x.0 & 2) | (x.0 & 4),
{
    let a = x.0;
    assert((a & !7u32 == 0) <==> a < 8) by (bit_vector);
    assert((a & !7u32 == 0) <==> a == (a & 1) | (a & 2) | (a & 4)) by (bit_vector);
}

/// The raw values of the modes are Direct2D's: `D2D1_ANTIALIAS_MODE_PER_PRIMITIVE`
/// is 0 and `D2D1_ANTIALIAS_MODE_ALIASED` is 1, through the inherent
/// conversions and through `CheckedEnum` alike, and no other raw value names a mode.
pub proof fn lemma_antialias_mode_values(value: u32)
    ensures
        AntialiasMode::PerPrimitive.raw() == 0,
        AntialiasMode::Aliased.raw() == 1,
        <AntialiasMode as CheckedEnum>::spec_to_u32(AntialiasMode::PerPrimitive) == 0,
        <AntialiasMode as CheckedEnum>::spec_to_u32(AntialiasMode::Aliased) == 1,
        value == 0 ==> <AntialiasMode as CheckedEnum>::spec_from_u32(value) == Some(
            AntialiasMode::PerPrimitive,
        ),
        value == 1 ==> <AntialiasMode as CheckedEnum>::spec_from_u32(value) == Some(
            AntialiasMode::Aliased,
        ),
        value > 1 ==> <AntialiasMode as CheckedEnum>::spec_from_u32(value) is None,
        <AntialiasMode as CheckedEnum>::spec_from_u32(value) == AntialiasMode::from_raw(value),
{
}

/// The raw values of the modes are Direct2D's:
/// `D2D1_BITMAP_INTERPOLATION_MODE_NEAREST_NEIGHBOR` is 0 and
/// `D2D1_BITMAP_INTERPOLATION_MODE_LINEAR` is 1, through the inherent
/// conversions and through `CheckedEnum` alike, and no other raw value names a mode.
pub proof fn lemma_interpolation_mode_values(value: u32)
    ensures
        BitmapInterpolationMode::NearestNeighbor.raw() == 0,
        BitmapInterpolationMode::Linear.raw() == 1,
        <BitmapInterpolationMode as CheckedEnum>::spec_to_u32(BitmapInterpolationMode::NearestNeighbor) == 0,
        <BitmapInterpolationMode as CheckedEnum>::spec_to_u32(BitmapInterpolationMode::Linear) == 1,
        value == 0 ==> <BitmapInterpolationMode as CheckedEnum>::spec_from_u32(value) == Some(
            BitmapInterpolationMode::NearestNeighbor,
        ),
        value == 1 ==> <BitmapInterpolationMode as CheckedEnum>::spec_from_u32(value) == Some(
            BitmapInterpolationMode::Linear,
        ),
        value > 1 ==> <BitmapInterpolationMode as CheckedEnum>::spec_from_u32(value) is None,
        <BitmapInterpolationMode as CheckedEnum>::spec_from_u32(value)
            == BitmapInterpolationMode::from_raw(value),
{
}

} // verus!
