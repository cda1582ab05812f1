use vstd::prelude::*;
use vstd::string::*;
use fake::Fake;

verus! {

broadcast use vstd::string::group_string_axioms;

/// The decimal digit character of `d`, for `d < 10`.
pub open spec fn digit_char(d: nat) -> char {
    "0123456789"@[d as int]
}

/// The decimal representation of `n`, without leading zeros.
pub open spec fn decimal(n: nat) -> Seq<char>
    decreases n,
{
    if n < 10 {
        seq![digit_char(n)]
    } else {
        decimal(n / 10) + seq![digit_char(n % 10)]
    }
}

/// `s` with every space replaced by an underscore.
pub open spec fn underscored(s: Seq<char>) -> Seq<char> {
    s.map_values(|c: char| if c == ' ' { '_' } else { c })
}

/// The name of the file with index `index` and generated name `name`.
pub open spec fn file_name_of(index: nat, name: Seq<char>) -> Seq<char> {
    decimal(index) + seq!['-'] + name
}

/// A non-empty name that holds no slash.
pub open spec fn is_plain_name(name: Seq<char>) -> bool {
    name.len() > 0 && forall|i: int| 0 <= i < name.len() ==> #[trigger] name[i] != '/'
}

/// `name` placed under the directory `dir`.
pub open spec fn joined_path(dir: Seq<char>, name: Seq<char>) -> Seq<char> {
    dir + seq!['/'] + name
}

fn digit_str(d: usize) -> (r: &'static str)
    requires
        d < 10,
    ensures
        r@ == seq![digit_char(d as nat)],
{
    proof {
        reveal_strlit("0123456789");
    }
    let r = "0123456789".substring_char(d, d + 1);
    assert(r@ =~= seq![digit_char(d as nat)]);
    r
}

/// Writes `n` in decimal.
pub fn decimal_string(n: usize) -> (r: String)
    ensures
        r@ == decimal(n as nat),
    decreases n,
{
    if n < 10 {
        String::from_str(digit_str(n))
    } else {
        let mut s = decimal_string(n / 10);
        s.append(digit_str(n % 10));
        s
    }
}

/// Replaces every space of `name` by an underscore, so that a generated
/// company name can serve as a folder name.
pub fn folder_name_from(name: &str) -> (r: String)
    ensures
        r@ == underscored(name@),
{
    let n = name.unicode_len();
    let mut r = String::new();
    let mut i: usize = 0;
    while i < n
        invariant
            n == name@.len(),
            i <= n,
            r@ == underscored(name@.subrange(0, i as int)),
        decreases n - i,
    {
        let c = name.get_char(i);
        if c == ' ' {
            proof {
                reveal_strlit("_");
            }
            assert("_"@ =~= seq!['_']);
            r.append("_");
        } else {
            let one = name.substring_char(i, i + 1);
            assert(one@ =~= seq![c]);
            r.append(one);
        }
        assert(underscored(name@.subrange(0, i + 1)) =~= underscored(name@.subrange(0, i as int))
            + seq![if c == ' ' { '_' } else { c }]);
        i = i + 1;
    }
    assert(name@.subrange(0, n as int) =~= name@);
    r
}

/// The name of the file with index `index`: the index in decimal, a dash,
/// then the generated name.
pub fn file_name(index: usize, name: &str) -> (r: String)
    ensures
        r@ == file_name_of(index as nat, name@),
{
    proof {
        reveal_strlit("-");
    }
    let mut r = decimal_string(index);
    r.append("-");
    r.append(name);
    r
}

/// The path of `name` under the directory `dir`, joined by a slash.
pub fn join_path(dir: &str, name: &str) -> (r: String)
    ensures
        r@ == joined_path(dir@, name@),
{
    proof {
        reveal_strlit("/");
    }
    let mut r = String::from_str(dir);
    r.append("/");
    r.append(name);
    r
}

/// Relies on fake's `CompanyName` faker: a random company name, built from
/// one or two last names and a suffix, so never empty.
#[verifier::external_body]
fn fake_company_name() -> (r: String)
    ensures
        r@.len() > 0,
{
    fake::faker::company::en::CompanyName().fake::<String>()
}

/// Relies on fake's `FileName` faker: a random file name, a path segment,
/// a dot and an extension, none of which holds a slash.
#[verifier::external_body]
fn fake_file_name() -> (r: String)
    ensures
        is_plain_name(r@),
{
    fake::faker::filesystem::en::FileName().fake::<String>()
}

/// A fresh folder name: a generated company name with its spaces replaced
/// by underscores.
pub fn generate_folder_name() -> (r: String)
    ensures
        exists|company: Seq<char>| r@ == underscored(company),
        r@.len() > 0,
{
    let company = fake_company_name();
    folder_name_from(company.as_str())
}

/// A fresh name for the file with index `index`: the index, a dash and a
/// generated file name.
pub fn generate_file_name(index: usize) -> (r: String)
    ensures
        exists|name: Seq<char>| is_plain_name(name) && r@ == file_name_of(index as nat, name),
{
    let name = fake_file_name();
    file_name(index, name.as_str())
}

} // verus!
