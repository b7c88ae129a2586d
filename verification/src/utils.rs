use vstd::prelude::*;

verus! {

// ---------------------------------------------------------------------------
// Lexical validation of identifiers and type tokens.
//
// Table and column names must match `^[A-Za-z_][A-Za-z0-9_]*$`; SQL type
// tokens additionally allow interior spaces, so that compound types such as
// `VARCHAR NOT NULL` pass, but may not end in one.
// ---------------------------------------------------------------------------

/// A character that may begin an identifier: a letter or an underscore.
pub open spec fn spec_ident_start(c: char) -> bool {
    ('a' <= c && c <= 'z') || ('A' <= c && c <= 'Z') || c == '_'
}

/// A character that may continue an identifier: a letter, a digit or an
/// underscore.
pub open spec fn spec_ident_char(c: char) -> bool {
    spec_ident_start(c) || ('0' <= c && c <= '9')
}

/// A character allowed after the first position of a type token: identifier
/// characters and the space.
pub open spec fn spec_type_char(c: char) -> bool {
    spec_ident_char(c) || c == ' '
}

/// The lexical rule for table and column names.
pub open spec fn spec_valid_identifier(s: Seq<char>) -> bool {
    &&& s.len() > 0
    &&& spec_ident_start(s[0])
    &&& forall|i: int| 1 <= i < s.len() ==> #[trigger] spec_ident_char(s[i])
}

/// The lexical rule for SQL type tokens: like identifiers, with interior
/// spaces allowed; a trailing space is not interior and is refused.
pub open spec fn spec_valid_type(s: Seq<char>) -> bool {
    &&& s.len() > 0
    &&& spec_ident_start(s[0])
    &&& forall|i: int| 1 <= i < s.len() ==> #[trigger] spec_type_char(s[i])
    &&& s[s.len() - 1] != ' '
}

fn is_ident_start(c: char) -> (r: bool)
    ensures
        r == spec_ident_start(c),
{
    ('a' <= c && c <= 'z') || ('A' <= c && c <= 'Z') || c == '_'
}

fn is_ident_char(c: char) -> (r: bool)
    ensures
        r == spec_ident_char(c),
{
    is_ident_start(c) || ('0' <= c && c <= '9')
}

fn is_type_char(c: char) -> (r: bool)
    ensures
        r == spec_type_char(c),
{
    is_ident_char(c) || c == ' '
}

/// Accepts exactly the table names matching `^[A-Za-z_][A-Za-z0-9_]*$`.
pub fn validate_table_name(input: &str) -> (r: bool)
    ensures
        r == spec_valid_identifier(input@),
{
    let n = input.unicode_len();
    if n == 0 {
        return false;
    }
    if !is_ident_start(input.get_char(0)) {
        return false;
    }
    let mut i: usize = 1;
    while i < n
        invariant
            1 <= i <= n,
            n == input@.len(),
            spec_ident_start(input@[0]),
            forall|j: int| 1 <= j < i ==> #[trigger] spec_ident_char(input@[j]),
        decreases n - i,
    {
        if !is_ident_char(input.get_char(i)) {
            return false;
        }
        i += 1;
    }
    true
}

/// Accepts exactly the column names matching `^[A-Za-z_][A-Za-z0-9_]*$`.
pub fn validate_column_name(input: &str) -> (r: bool)
    ensures
        r == spec_valid_identifier(input@),
{
    validate_table_name(input)
}

/// Accepts exactly the type tokens that start with a letter or an
/// underscore and continue with letters, digits, underscores and interior
/// spaces; a trailing space is refused.
pub fn validate_sql_type(input: &str) -> (r: bool)
    ensures
        r == spec_valid_type(input@),
{
    let n = input.unicode_len();
    if n == 0 {
        return false;
    }
    if !is_ident_start(input.get_char(0)) {
        return false;
    }
    if input.get_char(n - 1) == ' ' {
        return false;
    }
    let mut i: usize = 1;
    while i < n
        invariant
            1 <= i <= n,
            n == input@.len(),
            spec_ident_start(input@[0]),
            forall|j: int| 1 <= j < i ==> #[trigger] spec_type_char(input@[j]),
        decreases n - i,
    {
        if !is_type_char(input.get_char(i)) {
            return false;
        }
        i += 1;
    }
    true
}

// ---------------------------------------------------------------------------
// Validation errors and the validator objects handed to the prompt layer.
// ---------------------------------------------------------------------------

/// The reason a prompted value was rejected.
#[derive(Debug)]
pub struct ValidationError {
    pub cause: String,
}

impl ValidationError {
    pub fn new(cause: String) -> (r: Self)
        ensures
            r.cause == cause,
    {
        Self { cause }
    }

    /// The stored reason, for the interactive layer to show.
    pub fn message(&self) -> (r: &String)
        ensures
            r == self.cause,
    {
        &self.cause
    }
}

/// Which lexical rule a validator applies.
#[derive(Clone, Copy, Debug, Eq, PartialEq, Structural)]
pub enum ValidatorKind {
    TableName,
    ColumnName,
    SqlType,
}

/// What a validator of the given kind accepts.
pub open spec fn spec_accepts(kind: ValidatorKind, s: Seq<char>) -> bool {
    match kind {
        ValidatorKind::TableName => spec_valid_identifier(s),
        ValidatorKind::ColumnName => spec_valid_identifier(s),
        ValidatorKind::SqlType => spec_valid_type(s),
    }
}

/// A validator constructed once and passed by reference to the prompt layer:
/// it applies one lexical rule and reports a fixed reason on rejection.
pub struct ValidatorAdaptor {
    pub kind: ValidatorKind,
    pub error_reason: String,
}

impl ValidatorAdaptor {
    pub fn new(kind: ValidatorKind, error_reason: String) -> (r: Self)
        ensures
            r.kind == kind,
            r.error_reason == error_reason,
    {
        Self { kind, error_reason }
    }

    /// Accepts or rejects a prompted value by this validator's rule.
    pub fn validate(&self, text: &str) -> (r: Result<(), ValidationError>)
        ensures
            r is Ok <==> spec_accepts(self.kind, text@),
            r matches Err(e) ==> e.cause == self.error_reason,
    {
        let ok = match self.kind {
            ValidatorKind::TableName => validate_table_name(text),
            ValidatorKind::ColumnName => validate_column_name(text),
            ValidatorKind::SqlType => validate_sql_type(text),
        };
        if ok {
            Ok(())
        } else {
            Err(ValidationError::new(self.error_reason.clone()))
        }
    }
}

// ---------------------------------------------------------------------------
// Text assembly helpers shared by the statement builders.
// ---------------------------------------------------------------------------

/// The decimal digit for a value below ten.
pub open spec fn spec_digit_char(d: nat) -> char {
    if d == 0 {
        '0'
    } else if d == 1 {
        '1'
    } else if d == 2 {
        '2'
    } else if d == 3 {
        '3'
    } else if d == 4 {
        '4'
    } else if d == 5 {
        '5'
    } else if d == 6 {
        '6'
    } else if d == 7 {
        '7'
    } else if d == 8 {
        '8'
    } else {
        '9'
    }
}

/// The decimal notation of a natural number, without leading zeros
/// (a single `0` for zero).
pub open spec fn spec_decimal(n: nat) -> Seq<char>
    decreases n,
{
    if n < 10 {
        seq![spec_digit_char(n)]
    } else {
        spec_decimal(n / 10) + seq![spec_digit_char(n % 10)]
    }
}

fn digit_str(d: usize) -> (r: &'static str)
    requires
        d < 10,
    ensures
        r@ == seq![spec_digit_char(d as nat)],
{
    proof {
        reveal_strlit("0");
        reveal_strlit("1");
        reveal_strlit("2");
        reveal_strlit("3");
        reveal_strlit("4");
        reveal_strlit("5");
        reveal_strlit("6");
        reveal_strlit("7");
        reveal_strlit("8");
        reveal_strlit("9");
    }
    let r = match d {
        0 => "0",
        1 => "1",
        2 => "2",
        3 => "3",
        4 => "4",
        5 => "5",
        6 => "6",
        7 => "7",
        8 => "8",
        _ => "9",
    };
    proof {
        assert(r@ =~= seq![spec_digit_char(d as nat)]);
    }
    r
}

/// Writes a number in decimal, for the `LIMIT` clause of a paginated query.
pub fn usize_to_decimal(n: usize) -> (r: String)
    ensures
        r@ == spec_decimal(n as nat),
    decreases n,
{
    if n < 10 {
        digit_str(n).to_owned()
    } else {
        let mut s = usize_to_decimal(n / 10);
        s.append(digit_str(n % 10));
        s
    }
}

/// Compares two string slices character for character.
pub fn str_equals(a: &str, b: &str) -> (r: bool)
    ensures
        r == (a@ == b@),
{
    let a_string = a.to_owned();
    let b_string = b.to_owned();
    a_string == b_string
}

/// The parts joined by commas, with no separator around a single part.
pub open spec fn spec_comma_join(parts: Seq<Seq<char>>) -> Seq<char>
    decreases parts.len(),
{
    if parts.len() == 0 {
        Seq::empty()
    } else if parts.len() == 1 {
        parts[0]
    } else {
        spec_comma_join(parts.drop_last()) + seq![','] + parts.last()
    }
}

/// Extending a comma-joined list by one part appends a comma (when the list
/// was not empty) and then the part.
pub proof fn lemma_comma_join_step(parts: Seq<Seq<char>>, i: int)
    requires
        0 <= i < parts.len(),
    ensures
        i == 0 ==> spec_comma_join(parts.take(1)) == parts[0],
        i > 0 ==> spec_comma_join(parts.take(i + 1)) == spec_comma_join(parts.take(i)) + seq![',']
            + parts[i],
{
    assert(parts.take(i + 1).drop_last() =~= parts.take(i));
    assert(parts.take(i + 1).last() == parts[i]);
    if i == 0 {
        assert(parts.take(1)[0] == parts[0]);
    }
}

} // verus!
