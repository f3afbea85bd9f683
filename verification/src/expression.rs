//! The expression model: literal values, the column vocabulary,
//! comparison operators, filters, and the chained expression AST that a
//! `DataSource` binds to a feature name.

use std::sync::Arc;

use vstd::prelude::*;

verus! {

/// The comparison operators a filter may use.
#[derive(Copy, Clone, Debug, Eq, PartialEq, Structural)]
pub enum Operator {
    Eq,
    NotEq,
    Gt,
    GtEq,
    Lt,
    LtEq,
}

/// The display symbol of each operator.
pub open spec fn spec_operator_symbol(op: Operator) -> Seq<char> {
    match op {
        Operator::Eq => "=="@,
        Operator::NotEq => "!="@,
        Operator::Gt => ">"@,
        Operator::GtEq => ">="@,
        Operator::Lt => "<"@,
        Operator::LtEq => "<="@,
    }
}

impl Operator {
    /// The textual symbol of the operator, used in diagnostics.
    pub fn symbol(&self) -> (r: &'static str)
        ensures
            r@ == spec_operator_symbol(*self),
    {
        match self {
            Operator::Eq => "==",
            Operator::NotEq => "!=",
            Operator::Gt => ">",
            Operator::GtEq => ">=",
            Operator::Lt => "<",
            Operator::LtEq => "<=",
        }
    }
}

/// The fixed column vocabulary of the backing datasets.  No dynamic
/// columns exist in this version: a filter can only name one of these.
#[derive(Copy, Clone, Debug, Eq, PartialEq, Structural)]
pub enum KnownColumn {
    KeyColumn,
    TimestampColumn,
    ValueColumn,
}

/// The backend identifier of each known column.
pub open spec fn spec_column_name(c: KnownColumn) -> Seq<char> {
    match c {
        KnownColumn::KeyColumn => "key"@,
        KnownColumn::TimestampColumn => "timestamp"@,
        KnownColumn::ValueColumn => "value"@,
    }
}

impl KnownColumn {
    /// The lowercase column identifier used by the backend.
    pub fn name(&self) -> (r: &'static str)
        ensures
            r@ == spec_column_name(*self),
    {
        match self {
            KnownColumn::KeyColumn => "key",
            KnownColumn::TimestampColumn => "timestamp",
            KnownColumn::ValueColumn => "value",
        }
    }
}

/// Aggregations over grouped rows.  Reserved: no chain node produces
/// one yet.
#[derive(Copy, Clone, Debug, Eq, PartialEq, Structural)]
pub enum Aggregation {
    Sum,
}

/// The display name of each aggregation.
pub open spec fn spec_aggregation_name(a: Aggregation) -> Seq<char> {
    match a {
        Aggregation::Sum => "sum"@,
    }
}

impl Aggregation {
    /// The textual name of the aggregation, used in diagnostics.
    pub fn name(&self) -> (r: &'static str)
        ensures
            r@ == spec_aggregation_name(*self),
    {
        match self {
            Aggregation::Sum => "sum",
        }
    }
}

/// A year is a leap year under the Gregorian rules.
pub open spec fn spec_is_leap_year(y: int) -> bool {
    y % 4 == 0 && (y % 100 != 0 || y % 400 == 0)
}

/// How many days the given month of the given year has.
pub open spec fn spec_days_in_month(y: int, m: int) -> int {
    if m == 2 {
        if spec_is_leap_year(y) {
            29
        } else {
            28
        }
    } else if m == 4 || m == 6 || m == 9 || m == 11 {
        30
    } else {
        31
    }
}

/// The calendar dates a timestamp literal may carry: years 1990 through
/// 2110, and the month/day pair must name a real day of that year.
pub open spec fn spec_valid_date(y: int, m: int, d: int) -> bool {
    &&& 1990 <= y <= 2110
    &&& 1 <= m <= 12
    &&& 1 <= d <= spec_days_in_month(y, m)
}

/// The times of day a timestamp literal may carry.
pub open spec fn spec_valid_time(h: int, m: int, s: int) -> bool {
    &&& 0 <= h < 24
    &&& 0 <= m < 60
    &&& 0 <= s < 60
}

/// A validated calendar date.  Impossible dates are rejected at
/// construction and are never represented.
#[derive(Copy, Clone, Debug, Eq, PartialEq)]
pub struct AxonDate {
    year: u16,
    month: u8,
    day: u8,
}

impl AxonDate {
    /// Every reachable `AxonDate` names a real calendar day in range.
    #[verifier::type_invariant]
    pub closed spec fn wf(self) -> bool {
        spec_valid_date(self.year as int, self.month as int, self.day as int)
    }

    pub closed spec fn spec_year(self) -> u16 {
        self.year
    }

    pub closed spec fn spec_month(self) -> u8 {
        self.month
    }

    pub closed spec fn spec_day(self) -> u8 {
        self.day
    }

    /// Builds a date, rejecting any year/month/day triple that does not
    /// name a real calendar day between 1990 and 2110.  Nothing is
    /// clamped: the accepted values are stored exactly.
    pub fn new(year: u16, month: u8, day: u8) -> (r: Option<AxonDate>)
        ensures
            r is Some <==> spec_valid_date(year as int, month as int, day as int),
            r matches Some(d) ==> d.spec_year() == year && d.spec_month() == month
                && d.spec_day() == day,
    {
        if year < 1990 || year > 2110 || month < 1 || month > 12 {
            return None;
        }
        let leap: bool = year % 4 == 0 && (year % 100 != 0 || year % 400 == 0);
        let days: u8 = if month == 2 {
            if leap {
                29
            } else {
                28
            }
        } else if month == 4 || month == 6 || month == 9 || month == 11 {
            30
        } else {
            31
        };
        if day < 1 || day > days {
            return None;
        }
        Some(AxonDate { year, month, day })
    }

    pub fn year(&self) -> (r: u16)
        ensures
            r == self.spec_year(),
    {
        self.year
    }

    pub fn month(&self) -> (r: u8)
        ensures
            r == self.spec_month(),
    {
        self.month
    }

    pub fn day(&self) -> (r: u8)
        ensures
            r == self.spec_day(),
    {
        self.day
    }
}

/// A validated time of day.  Impossible times are rejected at
/// construction and are never represented.
#[derive(Copy, Clone, Debug, Eq, PartialEq)]
pub struct AxonTime {
    hour: u8,
    minute: u8,
    second: u8,
}

impl AxonTime {
    /// Every reachable `AxonTime` is a real time of day.
    #[verifier::type_invariant]
    pub closed spec fn wf(self) -> bool {
        spec_valid_time(self.hour as int, self.minute as int, self.second as int)
    }

    pub closed spec fn spec_hour(self) -> u8 {
        self.hour
    }

    pub closed spec fn spec_minute(self) -> u8 {
        self.minute
    }

    pub closed spec fn spec_second(self) -> u8 {
        self.second
    }

    /// Builds a time of day, rejecting out-of-range fields instead of
    /// clamping them.
    pub fn new(hour: u8, minute: u8, second: u8) -> (r: Option<AxonTime>)
        ensures
            r is Some <==> spec_valid_time(hour as int, minute as int, second as int),
            r matches Some(t) ==> t.spec_hour() == hour && t.spec_minute() == minute
                && t.spec_second() == second,
    {
        if hour < 24 && minute < 60 && second < 60 {
            Some(AxonTime { hour, minute, second })
        } else {
            None
        }
    }

    pub fn hour(&self) -> (r: u8)
        ensures
            r == self.spec_hour(),
    {
        self.hour
    }

    pub fn minute(&self) -> (r: u8)
        ensures
            r == self.spec_minute(),
    {
        self.minute
    }

    pub fn second(&self) -> (r: u8)
        ensures
            r == self.spec_second(),
    {
        self.second
    }
}

/// A validated date paired with a validated time of day.
#[derive(Copy, Clone, Debug, Eq, PartialEq)]
pub struct AxonTimestamp(AxonDate, AxonTime);

impl AxonTimestamp {
    /// Both halves of a reachable timestamp satisfy their own
    /// invariants.
    #[verifier::type_invariant]
    pub closed spec fn wf(self) -> bool {
        self.0.wf() && self.1.wf()
    }

    pub closed spec fn spec_date(self) -> AxonDate {
        self.0
    }

    pub closed spec fn spec_time(self) -> AxonTime {
        self.1
    }

    /// Pairs an already validated date and time.  Total: validation
    /// happened when the parts were built.
    pub fn new(date: AxonDate, time: AxonTime) -> (r: AxonTimestamp)
        ensures
            r.spec_date() == date,
            r.spec_time() == time,
    {
        proof {
            use_type_invariant(&date);
            use_type_invariant(&time);
        }
        AxonTimestamp(date, time)
    }

    pub fn date(&self) -> (r: AxonDate)
        ensures
            r == self.spec_date(),
    {
        self.0
    }

    pub fn time(&self) -> (r: AxonTime)
        ensures
            r == self.spec_time(),
    {
        self.1
    }
}

/// A literal operand: exactly one variant is active.  `Float32` carries
/// the IEEE 754 bit pattern of a 32-bit float as an opaque payload:
/// this crate holds no float values, so backend lowerings that cannot
/// reassemble one report absence for it.
#[derive(Clone, Debug, PartialEq)]
pub enum Const {
    Null,
    Boolean(bool),
    String(String),
    Uint32(u32),
    Int32(i32),
    Float32(u32),
    Timestamp(AxonTimestamp),
}

/// The textual type tag of a literal: a function of the variant alone,
/// never of the payload.
pub open spec fn spec_type_tag(c: Const) -> Seq<char> {
    match c {
        Const::Null => "null"@,
        Const::Boolean(_) => "boolean"@,
        Const::String(_) => "string"@,
        Const::Uint32(_) => "uint32"@,
        Const::Int32(_) => "int32"@,
        Const::Float32(_) => "float32"@,
        Const::Timestamp(_) => "timestamp"@,
    }
}

/// Two literals carry the same variant, whatever their payloads.
pub open spec fn spec_same_variant(a: Const, b: Const) -> bool {
    match (a, b) {
        (Const::Null, Const::Null) => true,
        (Const::Boolean(_), Const::Boolean(_)) => true,
        (Const::String(_), Const::String(_)) => true,
        (Const::Uint32(_), Const::Uint32(_)) => true,
        (Const::Int32(_), Const::Int32(_)) => true,
        (Const::Float32(_), Const::Float32(_)) => true,
        (Const::Timestamp(_), Const::Timestamp(_)) => true,
        _ => false,
    }
}

impl Const {
    /// The textual type tag used in diagnostics.
    pub fn type_tag(&self) -> (r: &'static str)
        ensures
            r@ == spec_type_tag(*self),
    {
        match self {
            Const::Null => "null",
            Const::Boolean(_) => "boolean",
            Const::String(_) => "string",
            Const::Uint32(_) => "uint32",
            Const::Int32(_) => "int32",
            Const::Float32(_) => "float32",
            Const::Timestamp(_) => "timestamp",
        }
    }
}

/// The type tag of a literal depends only on its variant: two literals
/// of the same variant render the same tag, whatever their payloads.
pub proof fn lemma_type_tag_variant_only(a: Const, b: Const)
    requires
        spec_same_variant(a, b),
    ensures
        spec_type_tag(a) == spec_type_tag(b),
{
}

/// One predicate over the base table: `column op value`.
#[derive(Clone, Debug, PartialEq)]
pub struct Filter {
    pub column: KnownColumn,
    pub op: Operator,
    pub value: Const,
}

/// What `Filter::render` displays: the column, the operator symbol and
/// the value's type tag, separated by single spaces.
pub open spec fn spec_filter_display(f: Filter) -> Seq<char> {
    spec_column_name(f.spec_column()) + " "@ + spec_operator_symbol(f.spec_op()) + " "@
        + spec_type_tag(f.spec_value())
}

impl Filter {
    pub open spec fn spec_column(self) -> KnownColumn {
        self.column
    }

    pub open spec fn spec_op(self) -> Operator {
        self.op
    }

    pub open spec fn spec_value(self) -> Const {
        self.value
    }

    /// Builds a predicate; immutable once built.
    pub fn new(column: KnownColumn, op: Operator, value: Const) -> (r: Filter)
        ensures
            r.spec_column() == column,
            r.spec_op() == op,
            r.spec_value() == value,
    {
        Filter { column, op, value }
    }

    /// The diagnostic rendering `"<column> <op> <value-type>"`.
    pub fn render(&self) -> (r: String)
        ensures
            r@ == spec_filter_display(*self),
    {
        let mut s = String::from_str(self.column.name());
        s.append(" ");
        s.append(self.op.symbol());
        s.append(" ");
        s.append(self.value.type_tag());
        s
    }
}

/// The expression AST: a finite, forward-linked chain of operation
/// nodes, shared by reference counting and never edited in place.  The
/// only implemented node filters rows; grouping and aggregation nodes
/// are reserved for later versions.
#[derive(Clone, Debug, PartialEq)]
pub enum Expression {
    FilterValue(Filter, Arc<Option<Expression>>),
}

impl Expression {
    /// The link to the following node, or its absence at the end of the
    /// chain.
    pub open spec fn spec_next(self) -> Option<Expression> {
        match self {
            Expression::FilterValue(_, next) => *next,
        }
    }

    /// Returns the shared link to the following node without consuming
    /// this one, so any number of passes may walk the chain.
    pub fn next(&self) -> (r: Arc<Option<Expression>>)
        ensures
            r == self.spec_next(),
    {
        match self {
            Expression::FilterValue(_, next) => next.clone(),
        }
    }
}

/// Grouping of rows for a reserved chain node.
#[derive(Clone, Debug, PartialEq)]
pub enum Grouping {
    ByFilter(Filter),
}

/// One feature ready for compilation: the name under which its base
/// dataset is resolved, bound to the transformation chain to apply to
/// it.  Clones share the immutable chain, so several threads may lower
/// the same `DataSource` at once.
#[derive(Clone, Debug)]
pub struct DataSource {
    pub feature_name: String,
    pub exp: Arc<Expression>,
}

impl DataSource {
    pub open spec fn spec_feature_name(self) -> Seq<char> {
        self.feature_name@
    }

    pub open spec fn spec_expression(self) -> Expression {
        *self.exp
    }

    /// Binds a feature name to its expression chain.  Total: any name
    /// and any chain form a valid `DataSource`.
    pub fn new(feature_name: &str, exp: Expression) -> (r: Self)
        ensures
            r.spec_feature_name() == feature_name@,
            r.spec_expression() == exp,
    {
        Self { feature_name: String::from_str(feature_name), exp: Arc::new(exp) }
    }
}

} // verus!
