use vstd::prelude::*;

use crate::broker::ApiEnv;
use crate::clock::Timestamp;
use crate::trading::AssetInfo;

verus! {

/// Where the price oracle reads balances and prices.
#[derive(Clone, Copy, Debug, PartialEq, Eq, Structural)]
pub enum DataReaderType {
    DB,
    PAPER,
    REAL,
}

/// Reads from the brokerage API's live environment.
pub struct RealDataReader;

/// Reads from the brokerage API's paper-trading environment.
pub struct PaperDataReader;

/// Reads from the ledger store.
pub struct DbDataReader;

/// Reads from the brokerage API in the environment `env`.
pub struct KiDataReader {
    pub env: ApiEnv,
}

impl KiDataReader {
    /// A reader of the brokerage API in `env`.
    pub fn new(env: ApiEnv) -> (r: KiDataReader)
        ensures
            r.env == env,
    {
        KiDataReader { env }
    }
}

/// Where a reader of kind `kind` reads: the brokerage API in an environment,
/// or the ledger store.
pub enum DataSource {
    Api(KiDataReader),
    Db(DbDataReader),
}

/// The reader of kind `kind`.
pub fn make_data_reader(kind: DataReaderType) -> (r: DataSource)
    ensures
        kind == DataReaderType::REAL ==> (r matches DataSource::Api(k) && k.env == ApiEnv::Real),
        kind == DataReaderType::PAPER ==> (r matches DataSource::Api(k) && k.env == ApiEnv::Paper),
        kind == DataReaderType::DB ==> r is Db,
{
    match kind {
        DataReaderType::REAL => DataSource::Api(KiDataReader::new(ApiEnv::Real)),
        DataReaderType::DB => DataSource::Db(DbDataReader),
        DataReaderType::PAPER => DataSource::Api(KiDataReader::new(ApiEnv::Paper)),
    }
}

/// Why a balance reply yields no value.
#[derive(Clone, Copy, Debug, PartialEq, Eq, Structural)]
pub enum ReaderError {
    /// No holding of the instrument asked for.
    NotFound,
    /// A field that holds no decimal amount, or one beyond 64 bits.
    BadAmount,
}

pub open spec fn is_digit(c: char) -> bool {
    '0' <= c && c <= '9'
}

pub open spec fn digit_of(c: char) -> int {
    (c as int) - ('0' as int)
}

/// Every character of `s` is a decimal digit.
pub open spec fn all_digits(s: Seq<char>) -> bool {
    forall|i: int| 0 <= i < s.len() ==> is_digit(#[trigger] s[i])
}

/// The number that the decimal digits `s` write.
pub open spec fn digits_value(s: Seq<char>) -> int
    decreases s.len(),
{
    if s.len() == 0 {
        0
    } else {
        digits_value(s.drop_last()) * 10 + digit_of(s.last())
    }
}

/// The first three digits after a decimal point, in thousandths.
pub open spec fn fraction_thousandths(f: Seq<char>) -> int {
    if f.len() == 0 {
        0
    } else if f.len() == 1 {
        digits_value(f) * 100
    } else if f.len() == 2 {
        digits_value(f) * 10
    } else {
        digits_value(f.subrange(0, 3))
    }
}

/// `b` has its one decimal point at `k`, with digits on both sides.
pub open spec fn is_point_at(b: Seq<char>, k: int) -> bool {
    &&& 0 <= k < b.len()
    &&& b[k] == '.'
    &&& all_digits(b.subrange(0, k))
    &&& all_digits(b.subrange(k + 1, b.len() as int))
}

/// The amount in thousandths that the unsigned decimal `b` writes: integer
/// digits, then optionally a point and fraction digits, with at least one
/// digit in all; fraction digits past the third do not count.
pub open spec fn unsigned_amount(b: Seq<char>) -> Option<int> {
    if all_digits(b) {
        if b.len() == 0 {
            None
        } else {
            Some(digits_value(b) * 1000)
        }
    } else if exists|k: int| is_point_at(b, k) {
        let k = choose|k: int| is_point_at(b, k);
        if b.len() == 1 {
            None
        } else {
            Some(
                digits_value(b.subrange(0, k)) * 1000 + fraction_thousandths(
                    b.subrange(k + 1, b.len() as int),
                ),
            )
        }
    } else {
        None
    }
}

/// The magnitude `u`, negated when `neg`; none beyond `i64::MAX`.
pub open spec fn signed_amount(u: Option<int>, neg: bool) -> Option<int> {
    match u {
        Some(v) => if v > i64::MAX {
            None
        } else {
            Some(
                if neg {
                    -v
                } else {
                    v
                },
            )
        },
        None => None,
    }
}

/// The amount in thousandths that `s` writes as a decimal with an optional
/// sign, or none when `s` is no such decimal or its magnitude exceeds `i64::MAX`.
pub open spec fn amount_of(s: Seq<char>) -> Option<int> {
    let signed = s.len() > 0 && (s[0] == '-' || s[0] == '+');
    let body = if signed {
        s.drop_first()
    } else {
        s
    };
    signed_amount(unsigned_amount(body), s.len() > 0 && s[0] == '-')
}

/// The largest integer part whose thousandths fit in an `i64`.
const INT_PART_LIMIT: u64 = 9223372036854775;

/// Reads a decimal amount, such as `1234.5` or `-0.25`, in thousandths;
/// digits past the third after the point are dropped.
pub fn parse_amount(s: &str) -> (r: Option<i64>)
    ensures
        r == (match amount_of(s@) {
            Some(v) => Some(v as i64),
            None => None::<i64>,
        }),
        r matches Some(v) ==> amount_of(s@) == Some(v as int),
{
    let n = s.unicode_len();
    let mut start: usize = 0;
    let mut neg = false;
    if n > 0 {
        let c = s.get_char(0);
        if c == '-' || c == '+' {
            start = 1;
            neg = c == '-';
        }
    }
    let ghost b = s@.subrange(start as int, n as int);
    assert(b =~= (if start == 1 {
        s@.drop_first()
    } else {
        s@
    }));
    assert(amount_of(s@) == signed_amount(unsigned_amount(b), neg));
    // Where the point is, if anywhere.
    let mut k: usize = start;
    let mut found = false;
    while k < n && !found
        invariant
            start <= k <= n,
            n == s@.len(),
            forall|j: int| start <= j < k ==> s@[j] != '.',
            found ==> k < n && s@[k as int] == '.',
            amount_of(s@) == signed_amount(unsigned_amount(b), neg),
        decreases n - k + if found {
            0int
        } else {
            1int
        },
    {
        if s.get_char(k) == '.' {
            found = true;
        } else {
            k = k + 1;
        }
    }
    // The integer digits.
    let mut iv: u64 = 0;
    let mut too_big = false;
    let mut j: usize = start;
    assert(s@.subrange(start as int, start as int) =~= Seq::<char>::empty());
    while j < k
        invariant
            start <= j <= k <= n,
            n == s@.len(),
            b == s@.subrange(start as int, n as int),
            all_digits(s@.subrange(start as int, j as int)),
            !too_big ==> iv == digits_value(s@.subrange(start as int, j as int)) && iv
                <= INT_PART_LIMIT,
            too_big ==> digits_value(s@.subrange(start as int, j as int)) > INT_PART_LIMIT,
            forall|i: int| start <= i < k ==> s@[i] != '.',
            found ==> k < n && s@[k as int] == '.',
            amount_of(s@) == signed_amount(unsigned_amount(b), neg),
        decreases k - j,
    {
        let c = s.get_char(j);
        let ghost pre = s@.subrange(start as int, j as int);
        let ghost post = s@.subrange(start as int, j + 1);
        proof {
            assert(post.drop_last() =~= pre);
        }
        if !('0' <= c && c <= '9') {
            proof {
                let bi = (j - start) as int;
                assert(b[bi] == c);
                assert(!all_digits(b));
                assert forall|q: int| !is_point_at(b, q) by {
                    if is_point_at(b, q) {
                        if q < bi {
                            assert(b.subrange(q + 1, b.len() as int)[bi - q - 1] == c);
                        } else if q > bi {
                            assert(b.subrange(0, q)[bi] == c);
                        } else {
                            assert(s@[j as int] != '.');
                        }
                    }
                }
            }
            proof {
                assert(unsigned_amount(b) is None);
                assert(signed_amount(unsigned_amount(b), neg) is None);
            }
            return None;
        }
        let d: u64 = (c as u32 - '0' as u32) as u64;
        if !too_big {
            let next: u128 = iv as u128 * 10 + d as u128;
            if next > INT_PART_LIMIT as u128 {
                too_big = true;
            } else {
                iv = next as u64;
            }
        }
        proof {
            assert(all_digits(post)) by {
                assert forall|i: int| 0 <= i < post.len() implies is_digit(#[trigger] post[i]) by {
                    if i < pre.len() {
                        assert(post[i] == pre[i]);
                    }
                }
            }
            assert(digits_value(post) == digits_value(pre) * 10 + digit_of(c));
        }
        j = j + 1;
    }
    let ghost ipart = s@.subrange(start as int, k as int);
    // The fraction digits.
    let mut fv: u64 = 0;
    if found {
        let mut m: usize = k + 1;
        assert(s@.subrange(k + 1, k + 1) =~= Seq::<char>::empty());
        while m < n
            invariant
                start <= k < m <= n,
                n == s@.len(),
                b == s@.subrange(start as int, n as int),
                s@[k as int] == '.',
                all_digits(ipart),
                ipart == s@.subrange(start as int, k as int),
                all_digits(s@.subrange(k + 1, m as int)),
                fv == fraction_thousandths(s@.subrange(k + 1, m as int)),
                fv <= 999,
                amount_of(s@) == signed_amount(unsigned_amount(b), neg),
            decreases n - m,
        {
            let c = s.get_char(m);
            let ghost pre = s@.subrange(k + 1, m as int);
            let ghost post = s@.subrange(k + 1, m + 1);
            proof {
                assert(post.drop_last() =~= pre);
            }
            if !('0' <= c && c <= '9') {
                proof {
                    let kb = (k - start) as int;
                    let bi = (m - start) as int;
                    assert(b[bi] == c);
                    assert(b[kb] == '.');
                    assert(!all_digits(b));
                    assert forall|q: int| !is_point_at(b, q) by {
                        if is_point_at(b, q) {
                            if q < bi {
                                assert(b.subrange(q + 1, b.len() as int)[bi - q - 1] == c);
                            } else if q > bi {
                                assert(b.subrange(0, q)[bi] == c);
                            } else {
                                assert(b.subrange(0, q)[kb] == '.');
                            }
                        }
                    }
                }
                return None;
            }
            let d: u64 = (c as u32 - '0' as u32) as u64;
            let pos: usize = m - (k + 1);
            proof {
                assert(all_digits(post)) by {
                    assert forall|i: int| 0 <= i < post.len() implies is_digit(#[trigger] post[i]) by {
                        if i < pre.len() {
                            assert(post[i] == pre[i]);
                        }
                    }
                }
                assert(pre.len() == pos);
                if pos == 0 {
                    assert(post.drop_last() =~= Seq::<char>::empty());
                    assert(digits_value(post.drop_last()) == 0);
                    assert(post.last() == c);
                    assert(digits_value(post) == digit_of(c));
                } else if pos == 1 {
                    assert(pre.drop_last() =~= Seq::<char>::empty());
                    assert(digits_value(pre) == digit_of(pre[0]));
                    assert(digits_value(post) == digits_value(pre) * 10 + digit_of(c));
                } else if pos == 2 {
                    assert(post.subrange(0, 3) =~= post);
                    assert(digits_value(post) == digits_value(pre) * 10 + digit_of(c));
                } else {
                    assert(post.subrange(0, 3) =~= pre.subrange(0, 3));
                }
            }
            if pos == 0 {
                fv = d * 100;
            } else if pos == 1 {
                fv = fv + d * 10;
            } else if pos == 2 {
                fv = fv + d;
            }
            m = m + 1;
        }
        proof {
            let kb = (k - start) as int;
            assert(b.subrange(0, kb) =~= ipart);
            assert(b.subrange(kb + 1, b.len() as int) =~= s@.subrange(k + 1, n as int));
            assert(b[kb] == '.');
            assert(is_point_at(b, kb));
            assert(!all_digits(b));
            assert forall|q: int| is_point_at(b, q) implies q == kb by {
                if q < kb {
                    assert(b[q] == s@[start + q]);
                } else if q > kb {
                    assert(b.subrange(0, q)[kb] == '.');
                }
            }
        }
        if n - start == 1 {
            return None;
        }
    } else {
        proof {
            assert(ipart =~= b);
        }
        if k == start {
            return None;
        }
    }
    if too_big {
        return None;
    }
    let v: u64 = iv * 1000 + fv;
    if v > i64::MAX as u64 {
        return None;
    }
    if neg {
        Some(-(v as i64))
    } else {
        Some(v as i64)
    }
}

/// One holding in a balance reply: its instrument code and average purchase
/// price, as the brokerage writes them.
pub struct Domestic006Output1 {
    pub pdno: String,
    pub pchs_avg_pric: String,
}

/// The account totals of a balance reply: deposit and net asset value.
pub struct Domestic006Output2 {
    pub dnca_tot_amt: String,
    pub nass_amt: String,
}

/// A balance reply of the brokerage API, taken at `date`.
pub struct Domestic006Result {
    pub date: Timestamp,
    pub output1: Vec<Domestic006Output1>,
    pub output2: Domestic006Output2,
}

/// The index of the first holding of `code` in `items`, if any.
pub open spec fn first_holding(items: Seq<Domestic006Output1>, code: Seq<char>) -> Option<int> {
    if exists|i: int| 0 <= i < items.len() && #[trigger] items[i].pdno@ == code {
        Some(
            choose|i: int|
                0 <= i < items.len() && #[trigger] items[i].pdno@ == code && forall|j: int|
                    0 <= j < i ==> items[j].pdno@ != code,
        )
    } else {
        None
    }
}

impl Domestic006Result {
    /// A reply from its holdings, as (code, average price) pairs, and its
    /// (deposit, net asset value) totals.
    pub fn new(date: Timestamp, output1: Vec<(String, String)>, output2: (String, String)) -> (r:
        Domestic006Result)
        ensures
            r.date == date,
            r.output1@.len() == output1@.len(),
            forall|i: int|
                0 <= i < output1@.len() ==> r.output1@[i].pdno == output1@[i].0
                    && r.output1@[i].pchs_avg_pric == output1@[i].1,
            r.output2.dnca_tot_amt == output2.0,
            r.output2.nass_amt == output2.1,
    {
        let mut items: Vec<Domestic006Output1> = Vec::new();
        let mut i: usize = 0;
        while i < output1.len()
            invariant
                0 <= i <= output1@.len(),
                items@.len() == i,
                forall|k: int|
                    0 <= k < i ==> items@[k].pdno == output1@[k].0 && items@[k].pchs_avg_pric
                        == output1@[k].1,
            decreases output1@.len() - i,
        {
            let pair = &output1[i];
            items.push(Domestic006Output1 { pdno: pair.0.clone(), pchs_avg_pric: pair.1.clone() });
            i = i + 1;
        }
        Domestic006Result {
            date,
            output1: items,
            output2: Domestic006Output2 { dnca_tot_amt: output2.0, nass_amt: output2.1 },
        }
    }

    /// The average purchase price of `stockcode`, in thousandths, read from
    /// its first holding in the reply.
    pub fn get_pchs_avg_pric(&self, stockcode: String) -> (r: Result<i64, ReaderError>)
        ensures
            first_holding(self.output1@, stockcode@) is None ==> r == Err::<i64, ReaderError>(
                ReaderError::NotFound,
            ),
            first_holding(self.output1@, stockcode@) matches Some(i) ==> r == (match amount_of(
                self.output1@[i].pchs_avg_pric@,
            ) {
                Some(v) => Ok::<i64, ReaderError>(v as i64),
                None => Err(ReaderError::BadAmount),
            }),
    {
        let mut i: usize = 0;
        while i < self.output1.len()
            invariant
                0 <= i <= self.output1@.len(),
                forall|j: int| 0 <= j < i ==> #[trigger] self.output1@[j].pdno@ != stockcode@,
            decreases self.output1@.len() - i,
        {
            if self.output1[i].pdno == stockcode {
                proof {
                    let items = self.output1@;
                    let code = stockcode@;
                    assert(items[i as int].pdno@ == code);
                    let c = choose|k: int|
                        0 <= k < items.len() && #[trigger] items[k].pdno@ == code && forall|j: int|
                            0 <= j < k ==> items[j].pdno@ != code;
                    assert(c == i) by {
                        if c < i {
                            assert(items[c].pdno@ != code);
                        } else if c > i {
                            assert(items[i as int].pdno@ != code);
                        }
                    }
                }
                return match parse_amount(self.output1[i].pchs_avg_pric.as_str()) {
                    Some(v) => Ok(v),
                    None => Err(ReaderError::BadAmount),
                };
            }
            i = i + 1;
        }
        Err(ReaderError::NotFound)
    }

    /// The net asset value of the reply, in thousandths, at the reply's moment.
    pub fn into(self) -> (r: Result<AssetInfo, ReaderError>)
        ensures
            r == (match amount_of(self.output2.nass_amt@) {
                Some(v) => Ok::<AssetInfo, ReaderError>(AssetInfo { date: self.date, asset: v as i64 }),
                None => Err(ReaderError::BadAmount),
            }),
    {
        match parse_amount(self.output2.nass_amt.as_str()) {
            Some(v) => Ok(AssetInfo { date: self.date, asset: v }),
            None => Err(ReaderError::BadAmount),
        }
    }
}

} // verus!
