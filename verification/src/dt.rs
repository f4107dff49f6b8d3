//! The datatypes of FIX field values.

use vstd::prelude::*;

verus! {

/// Every datatype that some version of the FIX protocol defines for the
/// value of a field.
///
/// Four of them are primitive: [`DataType::Char`], [`DataType::Float`],
/// [`DataType::Int`] and [`DataType::String`]. Each of the others restricts
/// one of these four, which [`DataType::base_type`] returns.
#[derive(Debug, Copy, Clone, PartialEq, Eq, Hash, Structural)]
#[non_exhaustive]
pub enum DataType {
    /// A single character: any alphanumeric character or punctuation except
    /// the delimiter. Case matters.
    Char,
    /// A `char` that is either `Y` (true) or `N` (false).
    Boolean,
    /// Digits with an optional sign and an optional decimal point, of up to
    /// fifteen significant digits. Leading zeros, and trailing zeros behind
    /// the decimal point, are allowed.
    Float,
    /// A `float` that typically stands for a price times a quantity.
    Amt,
    /// A `float` that stands for a price. It may be negative.
    Price,
    /// A `float` that stands for an offset to be added to a price.
    PriceOffset,
    /// A `float` that stands for a number of shares or of other units.
    Qty,
    /// A `float` that stands for a percentage: `0.05` is 5%.
    Percentage,
    /// Digits with an optional sign, without commas or decimals. Leading
    /// zeros are allowed.
    Int,
    /// An `int` that stands for a day of a month, from 1 to 31.
    DayOfMonth,
    /// An `int` that stands for a length in bytes. It is positive.
    Length,
    /// An `int` that stands for the number of entries of a repeating group.
    NumInGroup,
    /// An `int` that stands for the sequence number of a message.
    SeqNum,
    /// An `int` that stands for the tag of a field. It is positive and has
    /// no leading zeros.
    TagNum,
    /// Free text: any characters or punctuation except the delimiter. Case
    /// matters.
    String,
    /// Raw bytes with no restriction on what they hold, the delimiter
    /// included. A field of this type comes right behind a `Length` field
    /// that says how many bytes the value has.
    Data,
    /// A month of a year, as `YYYYMM`, `YYYYMMDD` or `YYYYMMWW`.
    MonthYear,
    /// One or more single characters, parted by spaces.
    MultipleCharValue,
    /// A currency, by its ISO 4217 code of three characters.
    Currency,
    /// A market or exchange, by its ISO 10383 market identifier code.
    Exchange,
    /// A national language, by its ISO 639-1 code.
    Language,
    /// A date of the local market, as `YYYYMMDD`.
    LocalMktDate,
    /// One or more strings, parted by spaces.
    MultipleStringValue,
    /// A date in UTC, as `YYYYMMDD`.
    UtcDateOnly,
    /// A time of day in UTC, as `HH:MM:SS` or `HH:MM:SS.sss`.
    UtcTimeOnly,
    /// A date and a time of day in UTC, as `YYYYMMDD-HH:MM:SS` or
    /// `YYYYMMDD-HH:MM:SS.sss`.
    UtcTimestamp,
    /// An XML document as raw bytes. A field of this type comes right behind
    /// a `Length` field that says how many bytes the value has.
    XmlData,
    /// A country, by its ISO 3166 code of two characters.
    Country,
}

/// Whether two strings hold the same characters.
pub(crate) fn same_text(a: &str, b: &str) -> (same: bool)
    ensures
        same == (a@ == b@),
{
    let x = a.as_bytes();
    let y = b.as_bytes();
    if x.len() != y.len() {
        return false;
    }
    let mut i: usize = 0;
    while i < x.len()
        invariant
            i <= x.len(),
            x@.len() == y@.len(),
            x@ == vstd::utf8::encode_utf8(a@),
            y@ == vstd::utf8::encode_utf8(b@),
            x@.take(i as int) == y@.take(i as int),
        decreases x.len() - i,
    {
        if x[i] != y[i] {
            return false;
        }
        proof {
            assert(x@.take(i + 1) =~= x@.take(i as int).push(x@[i as int]));
            assert(y@.take(i + 1) =~= y@.take(i as int).push(y@[i as int]));
        }
        i += 1;
    }
    proof {
        assert(x@ =~= x@.take(i as int));
        assert(y@ =~= y@.take(i as int));
        vstd::utf8::encode_utf8_decode_utf8(a@);
        vstd::utf8::encode_utf8_decode_utf8(b@);
    }
    true
}

/// The datatype that the QuickFIX dictionaries mean by `name`, if they know
/// the name. Several names stand for one datatype, and some datatypes have no
/// name here. Case matters: the names are all upper case.
pub open spec fn spec_from_quickfix_name(name: Seq<char>) -> Option<DataType> {
    if name == "AMT"@ {
        Some(DataType::Amt)
    } else if name == "BOOLEAN"@ {
        Some(DataType::Boolean)
    } else if name == "CHAR"@ {
        Some(DataType::Char)
    } else if name == "COUNTRY"@ {
        Some(DataType::Country)
    } else if name == "CURRENCY"@ {
        Some(DataType::Currency)
    } else if name == "DATA"@ {
        Some(DataType::Data)
    } else if name == "DATE"@ {
        Some(DataType::UtcDateOnly)
    } else if name == "DAYOFMONTH"@ {
        Some(DataType::DayOfMonth)
    } else if name == "EXCHANGE"@ {
        Some(DataType::Exchange)
    } else if name == "FLOAT"@ {
        Some(DataType::Float)
    } else if name == "INT"@ {
        Some(DataType::Int)
    } else if name == "LANGUAGE"@ {
        Some(DataType::Language)
    } else if name == "LENGTH"@ {
        Some(DataType::Int)
    } else if name == "LOCALMKTDATE"@ {
        Some(DataType::LocalMktDate)
    } else if name == "MONTHYEAR"@ {
        Some(DataType::MonthYear)
    } else if name == "MULTIPLECHARVALUE"@ {
        Some(DataType::MultipleCharValue)
    } else if name == "MULTIPLEVALUESTRING"@ {
        Some(DataType::MultipleCharValue)
    } else if name == "MULTIPLESTRINGVALUE"@ {
        Some(DataType::MultipleStringValue)
    } else if name == "NUMINGROUP"@ {
        Some(DataType::NumInGroup)
    } else if name == "PERCENTAGE"@ {
        Some(DataType::Percentage)
    } else if name == "PRICE"@ {
        Some(DataType::Price)
    } else if name == "PRICEOFFSET"@ {
        Some(DataType::PriceOffset)
    } else if name == "QTY"@ {
        Some(DataType::Qty)
    } else if name == "STRING"@ {
        Some(DataType::String)
    } else if name == "TZTIMEONLY"@ {
        Some(DataType::UtcTimeOnly)
    } else if name == "TZTIMESTAMP"@ {
        Some(DataType::UtcTimestamp)
    } else if name == "UTCDATE"@ {
        Some(DataType::UtcDateOnly)
    } else if name == "UTCDATEONLY"@ {
        Some(DataType::UtcDateOnly)
    } else if name == "UTCTIMEONLY"@ {
        Some(DataType::UtcTimeOnly)
    } else if name == "UTCTIMESTAMP"@ {
        Some(DataType::UtcTimestamp)
    } else if name == "SEQNUM"@ {
        Some(DataType::Int)
    } else if name == "TIME"@ {
        Some(DataType::UtcTimestamp)
    } else if name == "XMLDATA"@ {
        Some(DataType::XmlData)
    } else {
        None
    }
}

/// The name of `dt` as the FIX guidelines write it, character by character.
pub open spec fn spec_name(dt: DataType) -> Seq<char> {
    match dt {
        DataType::Int => "int"@,
        DataType::Length => "Length"@,
        DataType::Char => "char"@,
        DataType::Boolean => "Boolean"@,
        DataType::Float => "float"@,
        DataType::Amt => "Amt"@,
        DataType::Price => "Price"@,
        DataType::PriceOffset => "PriceOffset"@,
        DataType::Qty => "Qty"@,
        DataType::Percentage => "Percentage"@,
        DataType::DayOfMonth => "DayOfMonth"@,
        DataType::NumInGroup => "NumInGroup"@,
        DataType::Language => "Language"@,
        DataType::SeqNum => "SeqNum"@,
        DataType::TagNum => "TagNum"@,
        DataType::String => "String"@,
        DataType::Data => "data"@,
        DataType::MonthYear => "MonthYear"@,
        DataType::Currency => "Currency"@,
        DataType::Exchange => "Exchange"@,
        DataType::LocalMktDate => "LocalMktDate"@,
        DataType::MultipleStringValue => "MultipleStringValue"@,
        DataType::UtcTimeOnly => "UTCTimeOnly"@,
        DataType::UtcTimestamp => "UTCTimestamp"@,
        DataType::UtcDateOnly => "UTCDateOnly"@,
        DataType::Country => "Country"@,
        DataType::MultipleCharValue => "MultipleCharValue"@,
        DataType::XmlData => "XMLData"@,
    }
}

/// The primitive datatype that `dt` restricts; `dt` itself where it is
/// primitive.
pub open spec fn spec_base_type(dt: DataType) -> DataType {
    match dt {
        DataType::Char | DataType::Boolean => DataType::Char,
        DataType::Float
        | DataType::Amt
        | DataType::Price
        | DataType::PriceOffset
        | DataType::Qty
        | DataType::Percentage => DataType::Float,
        DataType::Int
        | DataType::DayOfMonth
        | DataType::Length
        | DataType::NumInGroup
        | DataType::SeqNum
        | DataType::TagNum => DataType::Int,
        _ => DataType::String,
    }
}

/// Whether `dt` is one of the four primitive datatypes.
pub open spec fn spec_is_base_type(dt: DataType) -> bool {
    dt == DataType::Char || dt == DataType::Float || dt == DataType::Int || dt == DataType::String
}

/// Every datatype, each once, in the order of their declaration.
pub open spec fn spec_all() -> Seq<DataType> {
    seq![
        DataType::Char,
        DataType::Boolean,
        DataType::Float,
        DataType::Amt,
        DataType::Price,
        DataType::PriceOffset,
        DataType::Qty,
        DataType::Percentage,
        DataType::Int,
        DataType::DayOfMonth,
        DataType::Length,
        DataType::NumInGroup,
        DataType::SeqNum,
        DataType::TagNum,
        DataType::String,
        DataType::Data,
        DataType::MonthYear,
        DataType::MultipleCharValue,
        DataType::Currency,
        DataType::Exchange,
        DataType::Language,
        DataType::LocalMktDate,
        DataType::MultipleStringValue,
        DataType::UtcDateOnly,
        DataType::UtcTimeOnly,
        DataType::UtcTimestamp,
        DataType::XmlData,
        DataType::Country,
    ]
}

impl DataType {
    /// Compares `name` to the names that QuickFIX uses for datatypes in its
    /// dictionaries, and returns the datatype that the name stands for, if
    /// there is one. Case matters.
    pub fn from_quickfix_name(name: &str) -> (result: Option<DataType>)
        ensures
            result == spec_from_quickfix_name(name@),
    {
        if same_text(name, "AMT") {
            Some(DataType::Amt)
        } else if same_text(name, "BOOLEAN") {
            Some(DataType::Boolean)
        } else if same_text(name, "CHAR") {
            Some(DataType::Char)
        } else if same_text(name, "COUNTRY") {
            Some(DataType::Country)
        } else if same_text(name, "CURRENCY") {
            Some(DataType::Currency)
        } else if same_text(name, "DATA") {
            Some(DataType::Data)
        } else if same_text(name, "DATE") {
            Some(DataType::UtcDateOnly)
        } else if same_text(name, "DAYOFMONTH") {
            Some(DataType::DayOfMonth)
        } else if same_text(name, "EXCHANGE") {
            Some(DataType::Exchange)
        } else if same_text(name, "FLOAT") {
            Some(DataType::Float)
        } else if same_text(name, "INT") {
            Some(DataType::Int)
        } else if same_text(name, "LANGUAGE") {
            Some(DataType::Language)
        } else if same_text(name, "LENGTH") {
            Some(DataType::Int)
        } else if same_text(name, "LOCALMKTDATE") {
            Some(DataType::LocalMktDate)
        } else if same_text(name, "MONTHYEAR") {
            Some(DataType::MonthYear)
        } else if same_text(name, "MULTIPLECHARVALUE") {
            Some(DataType::MultipleCharValue)
        } else if same_text(name, "MULTIPLEVALUESTRING") {
            Some(DataType::MultipleCharValue)
        } else if same_text(name, "MULTIPLESTRINGVALUE") {
            Some(DataType::MultipleStringValue)
        } else if same_text(name, "NUMINGROUP") {
            Some(DataType::NumInGroup)
        } else if same_text(name, "PERCENTAGE") {
            Some(DataType::Percentage)
        } else if same_text(name, "PRICE") {
            Some(DataType::Price)
        } else if same_text(name, "PRICEOFFSET") {
            Some(DataType::PriceOffset)
        } else if same_text(name, "QTY") {
            Some(DataType::Qty)
        } else if same_text(name, "STRING") {
            Some(DataType::String)
        } else if same_text(name, "TZTIMEONLY") {
            Some(DataType::UtcTimeOnly)
        } else if same_text(name, "TZTIMESTAMP") {
            Some(DataType::UtcTimestamp)
        } else if same_text(name, "UTCDATE") {
            Some(DataType::UtcDateOnly)
        } else if same_text(name, "UTCDATEONLY") {
            Some(DataType::UtcDateOnly)
        } else if same_text(name, "UTCTIMEONLY") {
            Some(DataType::UtcTimeOnly)
        } else if same_text(name, "UTCTIMESTAMP") {
            Some(DataType::UtcTimestamp)
        } else if same_text(name, "SEQNUM") {
            Some(DataType::Int)
        } else if same_text(name, "TIME") {
            Some(DataType::UtcTimestamp)
        } else if same_text(name, "XMLDATA") {
            Some(DataType::XmlData)
        } else {
            None
        }
    }

    /// The name by which a QuickFIX dictionary is to call `self`.
    pub fn to_quickfix_name(&self) -> (name: &str)
        ensures
            name@ == spec_name(*self),
    {
        match self {
            DataType::Int => "int",
            DataType::Length => "Length",
            DataType::Char => "char",
            DataType::Boolean => "Boolean",
            DataType::Float => "float",
            DataType::Amt => "Amt",
            DataType::Price => "Price",
            DataType::PriceOffset => "PriceOffset",
            DataType::Qty => "Qty",
            DataType::Percentage => "Percentage",
            DataType::DayOfMonth => "DayOfMonth",
            DataType::NumInGroup => "NumInGroup",
            DataType::Language => "Language",
            DataType::SeqNum => "SeqNum",
            DataType::TagNum => "TagNum",
            DataType::String => "String",
            DataType::Data => "data",
            DataType::MonthYear => "MonthYear",
            DataType::Currency => "Currency",
            DataType::Exchange => "Exchange",
            DataType::LocalMktDate => "LocalMktDate",
            DataType::MultipleStringValue => "MultipleStringValue",
            DataType::UtcTimeOnly => "UTCTimeOnly",
            DataType::UtcTimestamp => "UTCTimestamp",
            DataType::UtcDateOnly => "UTCDateOnly",
            DataType::Country => "Country",
            DataType::MultipleCharValue => "MultipleCharValue",
            DataType::XmlData => "XMLData",
        }
    }

    /// Returns the name of `self`, character by character as the FIX
    /// guidelines write it. Most primitive datatypes are in lower case and
    /// most of the others in Pascal case, but `data` and `String` are not.
    pub fn name(&self) -> (name: &'static str)
        ensures
            name@ == spec_name(*self),
    {
        match self {
            DataType::Int => "int",
            DataType::Length => "Length",
            DataType::Char => "char",
            DataType::Boolean => "Boolean",
            DataType::Float => "float",
            DataType::Amt => "Amt",
            DataType::Price => "Price",
            DataType::PriceOffset => "PriceOffset",
            DataType::Qty => "Qty",
            DataType::Percentage => "Percentage",
            DataType::DayOfMonth => "DayOfMonth",
            DataType::NumInGroup => "NumInGroup",
            DataType::Language => "Language",
            DataType::SeqNum => "SeqNum",
            DataType::TagNum => "TagNum",
            DataType::String => "String",
            DataType::Data => "data",
            DataType::MonthYear => "MonthYear",
            DataType::Currency => "Currency",
            DataType::Exchange => "Exchange",
            DataType::LocalMktDate => "LocalMktDate",
            DataType::MultipleStringValue => "MultipleStringValue",
            DataType::UtcTimeOnly => "UTCTimeOnly",
            DataType::UtcTimestamp => "UTCTimestamp",
            DataType::UtcDateOnly => "UTCDateOnly",
            DataType::Country => "Country",
            DataType::MultipleCharValue => "MultipleCharValue",
            DataType::XmlData => "XMLData",
        }
    }

    /// Returns `true` if and only if `self` is a primitive datatype.
    pub fn is_base_type(&self) -> (is_base: bool)
        ensures
            is_base == spec_is_base_type(*self),
    {
        match self {
            DataType::Char | DataType::Float | DataType::Int | DataType::String => true,
            _ => false,
        }
    }

    /// Returns the primitive datatype from which `self` is derived; `self`
    /// itself where it is primitive.
    pub fn base_type(&self) -> (base: DataType)
        ensures
            base == spec_base_type(*self),
            spec_is_base_type(base),
    {
        match self {
            DataType::Char | DataType::Boolean => DataType::Char,
            DataType::Float
            | DataType::Amt
            | DataType::Price
            | DataType::PriceOffset
            | DataType::Qty
            | DataType::Percentage => DataType::Float,
            DataType::Int
            | DataType::DayOfMonth
            | DataType::Length
            | DataType::NumInGroup
            | DataType::SeqNum
            | DataType::TagNum => DataType::Int,
            _ => DataType::String,
        }
    }

    /// Returns every datatype, each once.
    pub fn iter_all() -> (all: Vec<DataType>)
        ensures
            all@ == spec_all(),
    {
        let all: Vec<DataType> = vec![
            DataType::Char,
            DataType::Boolean,
            DataType::Float,
            DataType::Amt,
            DataType::Price,
            DataType::PriceOffset,
            DataType::Qty,
            DataType::Percentage,
            DataType::Int,
            DataType::DayOfMonth,
            DataType::Length,
            DataType::NumInGroup,
            DataType::SeqNum,
            DataType::TagNum,
            DataType::String,
            DataType::Data,
            DataType::MonthYear,
            DataType::MultipleCharValue,
            DataType::Currency,
            DataType::Exchange,
            DataType::Language,
            DataType::LocalMktDate,
            DataType::MultipleStringValue,
            DataType::UtcDateOnly,
            DataType::UtcTimeOnly,
            DataType::UtcTimestamp,
            DataType::XmlData,
            DataType::Country,
        ];
        proof {
            assert(all@ =~= spec_all());
        }
        all
    }
}

/// `base_type` gives a primitive datatype for every datatype, and applying
/// it twice gives what applying it once gives. A primitive datatype is its own
/// base type; any other datatype has a base type other than itself.
pub proof fn lemma_base_type_is_idempotent(dt: DataType)
    ensures
        spec_is_base_type(spec_base_type(dt)),
        spec_base_type(spec_base_type(dt)) == spec_base_type(dt),
        spec_is_base_type(dt) ==> spec_base_type(dt) == dt,
        !spec_is_base_type(dt) ==> spec_base_type(dt) != dt,
{
}

/// `iter_all` leaves no datatype out and gives none twice.
pub proof fn lemma_all_holds_each_once(dt: DataType)
    ensures
        spec_all().contains(dt),
        spec_all().no_duplicates(),
{
    let all = spec_all();
    let i: int = match dt {
        DataType::Char => 0,
        DataType::Boolean => 1,
        DataType::Float => 2,
        DataType::Amt => 3,
        DataType::Price => 4,
        DataType::PriceOffset => 5,
        DataType::Qty => 6,
        DataType::Percentage => 7,
        DataType::Int => 8,
        DataType::DayOfMonth => 9,
        DataType::Length => 10,
        DataType::NumInGroup => 11,
        DataType::SeqNum => 12,
        DataType::TagNum => 13,
        DataType::String => 14,
        DataType::Data => 15,
        DataType::MonthYear => 16,
        DataType::MultipleCharValue => 17,
        DataType::Currency => 18,
        DataType::Exchange => 19,
        DataType::Language => 20,
        DataType::LocalMktDate => 21,
        DataType::MultipleStringValue => 22,
        DataType::UtcDateOnly => 23,
        DataType::UtcTimeOnly => 24,
        DataType::UtcTimestamp => 25,
        DataType::XmlData => 26,
        DataType::Country => 27,
    };
    assert(all[i] == dt);
}

/// No two datatypes have the same name.
pub proof fn lemma_names_are_unique(a: DataType, b: DataType)
    requires
        spec_name(a) == spec_name(b),
    ensures
        a == b,
{
    reveal_strlit("Amt");
    reveal_strlit("Boolean");
    reveal_strlit("Country");
    reveal_strlit("Currency");
    reveal_strlit("DayOfMonth");
    reveal_strlit("Exchange");
    reveal_strlit("Language");
    reveal_strlit("Length");
    reveal_strlit("LocalMktDate");
    reveal_strlit("MonthYear");
    reveal_strlit("MultipleCharValue");
    reveal_strlit("MultipleStringValue");
    reveal_strlit("NumInGroup");
    reveal_strlit("Percentage");
    reveal_strlit("Price");
    reveal_strlit("PriceOffset");
    reveal_strlit("Qty");
    reveal_strlit("SeqNum");
    reveal_strlit("String");
    reveal_strlit("TagNum");
    reveal_strlit("UTCDateOnly");
    reveal_strlit("UTCTimeOnly");
    reveal_strlit("UTCTimestamp");
    reveal_strlit("XMLData");
    reveal_strlit("char");
    reveal_strlit("data");
    reveal_strlit("float");
    reveal_strlit("int");
    // Two names of the same length differ in one of these places.
    let x = spec_name(a);
    let y = spec_name(b);
    assert(x.len() == y.len());
    assert(x[0] == y[0] && x[1] == y[1] && x[2] == y[2]);
    assert(x.len() > 3 ==> x[3] == y[3]);
    assert(x.len() > 5 ==> x[5] == y[5]);
    assert(x.len() > 8 ==> x[8] == y[8]);
}

/// A name that `from_quickfix_name` knows is made of the upper-case letters
/// `A` to `Z` alone, so a name with any other character in it is unknown.
pub proof fn lemma_quickfix_names_are_upper_case(name: Seq<char>)
    requires
        spec_from_quickfix_name(name) is Some,
    ensures
        forall|i: int| 0 <= i < name.len() ==> 'A' <= #[trigger] name[i] <= 'Z',
{
    reveal_strlit("AMT");
    reveal_strlit("BOOLEAN");
    reveal_strlit("CHAR");
    reveal_strlit("COUNTRY");
    reveal_strlit("CURRENCY");
    reveal_strlit("DATA");
    reveal_strlit("DATE");
    reveal_strlit("DAYOFMONTH");
    reveal_strlit("EXCHANGE");
    reveal_strlit("FLOAT");
    reveal_strlit("INT");
    reveal_strlit("LANGUAGE");
    reveal_strlit("LENGTH");
    reveal_strlit("LOCALMKTDATE");
    reveal_strlit("MONTHYEAR");
    reveal_strlit("MULTIPLECHARVALUE");
    reveal_strlit("MULTIPLEVALUESTRING");
    reveal_strlit("MULTIPLESTRINGVALUE");
    reveal_strlit("NUMINGROUP");
    reveal_strlit("PERCENTAGE");
    reveal_strlit("PRICE");
    reveal_strlit("PRICEOFFSET");
    reveal_strlit("QTY");
    reveal_strlit("STRING");
    reveal_strlit("TZTIMEONLY");
    reveal_strlit("TZTIMESTAMP");
    reveal_strlit("UTCDATE");
    reveal_strlit("UTCDATEONLY");
    reveal_strlit("UTCTIMEONLY");
    reveal_strlit("UTCTIMESTAMP");
    reveal_strlit("SEQNUM");
    reveal_strlit("TIME");
    reveal_strlit("XMLDATA");
}

} // verus!
