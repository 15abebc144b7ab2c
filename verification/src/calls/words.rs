//! Numbers, paths and answers as text.

use vstd::prelude::*;
use crate::reply::CmdResult;

verus! {

/// Whether `c` is a decimal digit.
pub open spec fn is_digit(c: char) -> bool {
    '0' <= c <= '9'
}

/// The number that a row of digits stands for.
pub open spec fn number(digits: Seq<char>) -> int
    decreases digits.len(),
{
    if digits.len() == 0 {
        0
    } else {
        10 * number(digits.drop_last()) + (digits.last() as int - '0' as int)
    }
}

/// Whether `digits` is a number written with digits only, and without a needless zero in front.
pub open spec fn is_numeral(digits: Seq<char>) -> bool {
    &&& digits.len() > 0
    &&& forall|i: int| 0 <= i < digits.len() ==> is_digit(#[trigger] digits[i])
    &&& digits.len() > 1 ==> digits[0] != '0'
}

proof fn lemma_numeral(n: nat)
    ensures
        is_numeral(crate::text::decimal_nat(n)),
        number(crate::text::decimal_nat(n)) == n,
        n > 0 ==> crate::text::decimal_nat(n)[0] != '0',
    decreases n,
{
    let all = crate::text::decimal_nat(n);
    if n < 10 {
        assert(all.drop_last() =~= Seq::<char>::empty());
        assert(number(all.drop_last()) == 0);
    } else {
        let front = crate::text::decimal_nat(n / 10);
        lemma_numeral(n / 10);
        assert(all.drop_last() =~= front);
        assert(all[0] == front[0]);
        assert forall|i: int| 0 <= i < all.len() implies is_digit(#[trigger] all[i]) by {
            if i < front.len() {
                assert(all[i] == front[i]);
            }
        }
    }
}

/// The decimal of an integer is a numeral that stands for it, behind a `-` if it is negative.
pub proof fn decimal_stands_for_its_number(n: int)
    ensures
        ({
            let s = crate::text::decimal(n);
            if n < 0 {
                &&& s.len() > 0
                &&& s[0] == '-'
                &&& is_numeral(s.skip(1))
                &&& number(s.skip(1)) == -n
            } else {
                is_numeral(s) && number(s) == n
            }
        }),
{
    if n < 0 {
        lemma_numeral((-n) as nat);
        assert(crate::text::decimal(n).skip(1) =~= crate::text::decimal_nat((-n) as nat));
    } else {
        lemma_numeral(n as nat);
    }
}

/// The text of a number is a numeral that stands for it, behind a `-` if it is negative.
pub proof fn decimal_text_stands_for_its_number(n: i64, r: String)
    requires
        call_ensures(crate::text::decimal_text, (n,), r),
    ensures
        if n < 0 {
            &&& r@.len() > 0
            &&& r@[0] == '-'
            &&& is_numeral(r@.skip(1))
            &&& number(r@.skip(1)) == -n
        } else {
            is_numeral(r@) && number(r@) == n
        },
{
    decimal_stands_for_its_number(n as int);
}

/// A list of strings holds their texts, in their order.
pub proof fn texts_are_those_of_the_list(list: Seq<String>, i: int)
    requires
        0 <= i < list.len(),
    ensures
        crate::text::texts(list).len() == list.len(),
        crate::text::texts(list)[i] == list[i]@,
{
}

/// Whether `name` is what stands behind the last `/` of `path`, or all of `path` without one.
pub open spec fn is_base_name(path: Seq<char>, name: Seq<char>) -> bool {
    &&& name.len() <= path.len()
    &&& path.skip(path.len() - name.len()) == name
    &&& !name.contains('/')
    &&& name.len() < path.len() ==> path[path.len() - name.len() - 1] == '/'
}

proof fn lemma_last_component(path: Seq<char>)
    ensures
        is_base_name(path, crate::text::last_component(path)),
    decreases path.len(),
{
    let name = crate::text::last_component(path);
    if path.len() == 0 || path.last() == '/' {
        assert(path.skip(path.len() as int) =~= name);
    } else {
        let front = crate::text::last_component(path.drop_last());
        lemma_last_component(path.drop_last());
        let from = path.len() - name.len();
        assert forall|i: int| 0 <= i < name.len() implies path.skip(from)[i] == name[i] by {
            if i < front.len() {
                assert(path.drop_last().skip(from)[i] == front[i]);
            }
        }
        assert(path.skip(from) =~= name);
        if name.contains('/') {
            let i = choose|i: int| 0 <= i < name.len() && name[i] == '/';
            assert(i < front.len());
            assert(front[i] == '/');
            assert(front.contains('/'));
        }
    }
}

/// A path has one base name.
pub proof fn base_names_are_unique(path: Seq<char>, a: Seq<char>, b: Seq<char>)
    requires
        is_base_name(path, a),
        is_base_name(path, b),
    ensures
        a == b,
    decreases a.len() + b.len(),
{
    if a.len() < b.len() {
        let i = b.len() - a.len() - 1;
        assert(path.skip(path.len() - b.len())[i] == '/');
        assert(b.contains('/'));
    } else if b.len() < a.len() {
        let i = a.len() - b.len() - 1;
        assert(path.skip(path.len() - a.len())[i] == '/');
        assert(a.contains('/'));
    }
}

/// The base name of a path ends the path, holds no `/`, and stands behind one unless it is the
/// whole path.
pub proof fn base_name_ends_the_path(path: &str, r: &str)
    requires
        call_ensures(crate::text::base_name, (path,), r),
    ensures
        is_base_name(path@, r@),
{
    lemma_last_component(path@);
}

/// Where the last component of a path is spoken of, its base name is meant.
pub proof fn last_component_is_the_base_name(path: Seq<char>)
    ensures
        is_base_name(path, crate::text::last_component(path)),
{
    lemma_last_component(path);
}

/// Two texts are the same exactly when they have the same characters in the same places.
pub proof fn same_text_compares_characters(a: &str, b: &str, r: bool)
    requires
        call_ensures(crate::text::same_text, (a, b), r),
    ensures
        r <==> a@.len() == b@.len() && forall|i: int| 0 <= i < a@.len() ==> a@[i] == b@[i],
{
    if a@.len() == b@.len() && forall|i: int| 0 <= i < a@.len() ==> a@[i] == b@[i] {
        assert(a@ =~= b@);
    }
}

/// A text begins with `-` exactly when it is `-` and something behind it.
pub proof fn a_dash_comes_first(s: &str, r: bool)
    requires
        call_ensures(crate::text::begins_with_dash, (s,), r),
    ensures
        r <==> exists|rest: Seq<char>| s@ == #[trigger] (seq!['-'] + rest),
{
    if r {
        assert(s@ =~= seq!['-'] + s@.skip(1));
    }
}

/// On the bus, success is `ok`, a refusal is `bad_input`, and a failure is its reason.
pub proof fn replies_are_sent_as_words(reply: CmdResult, r: String)
    requires
        call_ensures(CmdResult::to_string, (&reply,), r),
    ensures
        reply is Done ==> r@ == "ok"@,
        reply is BadInput ==> r@ == "bad_input"@,
        reply matches CmdResult::Failed(e) ==> r@ == e@,
{
}

/// Off the bus, `ok` is success, `bad_input` is a refusal, and every other text is a failure for
/// that reason.
pub proof fn words_are_read_as_replies(word: String, r: CmdResult)
    requires
        call_ensures(<CmdResult as From<String>>::from, (word,), r),
    ensures
        word@ == "ok"@ ==> r is Done,
        word@ == "bad_input"@ ==> r is BadInput,
        word@ != "ok"@ && word@ != "bad_input"@ ==> (r matches CmdResult::Failed(e) && e@ == word@),
{
    reveal_strlit("ok");
    reveal_strlit("bad_input");
    assert("ok"@.len() != "bad_input"@.len());
}

/// What goes over the bus and is a failure on one side is the same failure on the other, unless
/// its reason is one of the two words.
pub proof fn failures_arrive(e: String, sent: String, r: CmdResult)
    requires
        call_ensures(CmdResult::to_string, (&CmdResult::Failed(e),), sent),
        call_ensures(<CmdResult as From<String>>::from, (sent,), r),
        e@ != "ok"@,
        e@ != "bad_input"@,
    ensures
        r matches CmdResult::Failed(reason) && reason@ == e@,
{
}

/// The failure to get at the tables is told in these words.
pub proof fn lost_data_is_told(r: CmdResult)
    requires
        call_ensures(CmdResult::local_data_err, (), r),
    ensures
        r matches CmdResult::Failed(e) && e@ == "Could not access local data."@,
{
}

} // verus!
