use vstd::prelude::*;

verus! {

/// Earliest Unix second that chrono can show in every offset (a day after its minimum instant).
pub const MIN_SECS: i64 = -8334601228800;

/// Latest Unix second that chrono can show in every offset (a day before its maximum instant).
pub const MAX_SECS: i64 = 8210266790399;

/// The instants that `Stamp` can hold.
pub open spec fn stamp_parts_ok(secs: int, nanos: int, offset: int) -> bool {
    &&& MIN_SECS <= secs <= MAX_SECS
    &&& 0 <= nanos < 1_000_000_000
    &&& -86_400 < offset < 86_400
}

/// The text that chrono's `Display` gives for the instant `secs`/`nanos`
/// seen at UTC offset `offset` (seconds east).
pub uninterp spec fn stamp_display(secs: int, nanos: int, offset: int) -> Seq<char>;

/// The RFC 3339 text that chrono's `%+` format gives for the same instant.
pub uninterp spec fn stamp_rfc3339(secs: int, nanos: int, offset: int) -> Seq<char>;

/// A point in time together with the UTC offset it was taken in.
#[derive(Clone, Copy, Debug, PartialEq, Eq, Structural)]
pub struct Stamp {
    secs: i64,
    nanos: u32,
    offset: i32,
}

/// Relies on std's `SystemTime::now` and `Duration` and on chrono's
/// `DateTime::from_timestamp`: the current instant as Unix seconds and the
/// nanoseconds past that second. `None` where the system time lies before the
/// Unix epoch or beyond chrono's range; none of these calls panics. The
/// nanoseconds of a `Duration` stay under a second, and `from_timestamp` keeps them.
#[verifier::external_body]
fn clock_now() -> (r: Option<(i64, u32)>)
    ensures
        r matches Some(t) ==> 0 <= t.0 && t.1 < 1_000_000_000,
{
    let since = std::time::SystemTime::now().duration_since(std::time::UNIX_EPOCH).ok()?;
    let secs = i64::try_from(since.as_secs()).ok()?;
    let now = chrono::DateTime::from_timestamp(secs, since.subsec_nanos())?;
    Some((now.timestamp(), now.timestamp_subsec_nanos()))
}

/// Relies on chrono's `Display` for `DateTime<FixedOffset>` (for example
/// `2024-05-01 09:30:00.250 +02:00`). `DateTime::from_timestamp` and
/// `FixedOffset::east_opt` return `Some` on every value that `requires` admits.
#[verifier::external_body]
fn render_display(secs: i64, nanos: u32, offset: i32) -> (r: String)
    requires
        stamp_parts_ok(secs as int, nanos as int, offset as int),
    ensures
        r@ == stamp_display(secs as int, nanos as int, offset as int),
{
    let zone = chrono::FixedOffset::east_opt(offset).unwrap();
    chrono::DateTime::from_timestamp(secs, nanos).unwrap().with_timezone(&zone).to_string()
}

/// Relies on chrono's `%+` format item for `DateTime<FixedOffset>`: RFC 3339
/// (for example `2024-05-01T09:30:00.250+02:00`), written from the overflowing
/// local time, so it does not panic.
#[verifier::external_body]
fn render_rfc3339(secs: i64, nanos: u32, offset: i32) -> (r: String)
    requires
        stamp_parts_ok(secs as int, nanos as int, offset as int),
    ensures
        r@ == stamp_rfc3339(secs as int, nanos as int, offset as int),
{
    let zone = chrono::FixedOffset::east_opt(offset).unwrap();
    chrono::DateTime::from_timestamp(secs, nanos).unwrap().with_timezone(&zone).format("%+").to_string()
}

impl Stamp {
    #[verifier::type_invariant]
    spec fn inv(self) -> bool {
        stamp_parts_ok(self.secs as int, self.nanos as int, self.offset as int)
    }

    /// Unix seconds of the instant.
    pub closed spec fn spec_secs(self) -> int {
        self.secs as int
    }

    /// Nanoseconds past `spec_secs`.
    pub closed spec fn spec_nanos(self) -> int {
        self.nanos as int
    }

    /// UTC offset in seconds east.
    pub closed spec fn spec_offset(self) -> int {
        self.offset as int
    }

    /// The stamp as `Display` shows it.
    pub open spec fn text(self) -> Seq<char> {
        stamp_display(self.spec_secs(), self.spec_nanos(), self.spec_offset())
    }

    /// The stamp in RFC 3339 form.
    pub open spec fn rfc3339(self) -> Seq<char> {
        stamp_rfc3339(self.spec_secs(), self.spec_nanos(), self.spec_offset())
    }

    /// Builds a stamp from Unix seconds, nanoseconds and a UTC offset in seconds east;
    /// `None` where the parts are out of range.
    pub fn new(secs: i64, nanos: u32, offset: i32) -> (r: Option<Stamp>)
        ensures
            r.is_some() <==> stamp_parts_ok(secs as int, nanos as int, offset as int),
            r matches Some(s) ==> s.spec_secs() == secs && s.spec_nanos() == nanos
                && s.spec_offset() == offset,
    {
        if MIN_SECS <= secs && secs <= MAX_SECS && nanos < 1_000_000_000 && -86_400 < offset
            && offset < 86_400 {
            Some(Stamp { secs, nanos, offset })
        } else {
            None
        }
    }

    /// The current time in UTC (offset 0), or `None` where the clock reads a time
    /// before the Unix epoch or beyond what a stamp can hold.
    pub fn now() -> (r: Option<Stamp>)
        ensures
            r matches Some(s) ==> s.spec_secs() >= 0 && s.spec_offset() == 0,
    {
        match clock_now() {
            Some((secs, nanos)) => Stamp::new(secs, nanos, 0),
            None => None,
        }
    }

    pub fn secs(&self) -> (r: i64)
        ensures
            r == self.spec_secs(),
    {
        self.secs
    }

    pub fn nanos(&self) -> (r: u32)
        ensures
            r == self.spec_nanos(),
    {
        self.nanos
    }

    pub fn offset(&self) -> (r: i32)
        ensures
            r == self.spec_offset(),
    {
        self.offset
    }

    /// The stamp as chrono's `Display` shows it.
    pub fn display_text(&self) -> (r: String)
        ensures
            r@ == self.text(),
    {
        proof {
            use_type_invariant(self);
        }
        render_display(self.secs, self.nanos, self.offset)
    }

    /// The stamp in RFC 3339 form.
    pub fn rfc3339_text(&self) -> (r: String)
        ensures
            r@ == self.rfc3339(),
    {
        proof {
            use_type_invariant(self);
        }
        render_rfc3339(self.secs, self.nanos, self.offset)
    }
}

} // verus!
