//! Multisets of fungible assets and the fund partitioner: a deposit is split
//! into the buckets required for sub-component installation and namespace
//! registration, with the remainder forwarded as residual funds.

use vstd::prelude::*;

use crate::errors::FactoryError;

verus! {

/// An amount of one denomination of a fungible asset.
#[derive(Debug)]
pub struct Coin {
    pub denom: String,
    pub amount: u128,
}

/// Mathematical image of a `Coin`: the denomination as a character sequence.
pub struct CoinView {
    pub denom: Seq<char>,
    pub amount: u128,
}

impl View for Coin {
    type V = CoinView;

    open spec fn view(&self) -> CoinView {
        CoinView { denom: self.denom@, amount: self.amount }
    }
}

impl DeepView for Coin {
    type V = CoinView;

    open spec fn deep_view(&self) -> CoinView {
        self@
    }
}

impl Clone for Coin {
    fn clone(&self) -> (res: Self)
        ensures
            res == *self,
    {
        Coin { denom: self.denom.clone(), amount: self.amount }
    }
}

/// Total amount of denomination `d` held in `s`, duplicates summed.
pub open spec fn amount_in(s: Seq<CoinView>, d: Seq<char>) -> nat
    decreases s.len(),
{
    if s.len() == 0 {
        0
    } else {
        amount_in(s.drop_last(), d) + if s.last().denom == d {
            s.last().amount as nat
        } else {
            0
        }
    }
}

/// No denomination appears twice.
pub open spec fn distinct_denoms(s: Seq<CoinView>) -> bool {
    forall|i: int, j: int| 0 <= i < j < s.len() ==> s[i].denom != s[j].denom
}

/// A normalized fund list: denominations are unique and amounts positive.
pub open spec fn wf_funds(s: Seq<CoinView>) -> bool {
    distinct_denoms(s) && forall|i: int| 0 <= i < s.len() ==> s[i].amount > 0
}

pub proof fn lemma_amount_in_concat(a: Seq<CoinView>, b: Seq<CoinView>, d: Seq<char>)
    ensures
        amount_in(a + b, d) == amount_in(a, d) + amount_in(b, d),
    decreases b.len(),
{
    if b.len() == 0 {
        assert(a + b =~= a);
    } else {
        assert((a + b).drop_last() =~= a + b.drop_last());
        lemma_amount_in_concat(a, b.drop_last(), d);
    }
}

pub proof fn lemma_amount_in_take_succ(s: Seq<CoinView>, i: int, d: Seq<char>)
    requires
        0 <= i < s.len(),
    ensures
        amount_in(s.take(i + 1), d) == amount_in(s.take(i), d) + if s[i].denom == d {
            s[i].amount as nat
        } else {
            0
        },
{
    assert(s.take(i + 1).drop_last() =~= s.take(i));
    assert(s.take(i + 1).last() == s[i]);
}

pub proof fn lemma_amount_in_absent(s: Seq<CoinView>, d: Seq<char>)
    requires
        forall|i: int| 0 <= i < s.len() ==> s[i].denom != d,
    ensures
        amount_in(s, d) == 0,
    decreases s.len(),
{
    if s.len() != 0 {
        lemma_amount_in_absent(s.drop_last(), d);
    }
}

/// Splits `s` around index `i`: the amount of `d` is the amount in the prefix,
/// plus the contribution of `s[i]`, plus the amount in the suffix.
pub proof fn lemma_amount_in_split(s: Seq<CoinView>, i: int, d: Seq<char>)
    requires
        0 <= i < s.len(),
    ensures
        amount_in(s, d) == amount_in(s.take(i), d) + (if s[i].denom == d {
            s[i].amount as nat
        } else {
            0
        }) + amount_in(s.skip(i + 1), d),
{
    assert(s =~= s.take(i + 1) + s.skip(i + 1));
    lemma_amount_in_concat(s.take(i + 1), s.skip(i + 1), d);
    lemma_amount_in_take_succ(s, i, d);
}

pub proof fn lemma_amount_in_prefix(s: Seq<CoinView>, i: int, d: Seq<char>)
    requires
        0 <= i <= s.len(),
    ensures
        amount_in(s.take(i), d) <= amount_in(s, d),
{
    assert(s =~= s.take(i) + s.skip(i));
    lemma_amount_in_concat(s.take(i), s.skip(i), d);
}

/// Copies a fund list; the image is unchanged.
pub fn clone_funds(src: &Vec<Coin>) -> (r: Vec<Coin>)
    ensures
        r.deep_view() == src.deep_view(),
{
    let mut r: Vec<Coin> = Vec::new();
    let mut i: usize = 0;
    while i < src.len()
        invariant
            i <= src.len(),
            r@.len() == i,
            forall|j: int| 0 <= j < i ==> r@[j] == src@[j],
        decreases src.len() - i,
    {
        r.push(src[i].clone());
        i = i + 1;
    }
    proof {
        assert forall|k: int| 0 <= k < r@.len() implies r.deep_view()[k] == src.deep_view()[k] by {
            assert(r@[k] == src@[k]);
        }
        assert(r.deep_view() =~= src.deep_view());
    }
    r
}

/// Index of the entry holding denomination `denom`, if any.
fn find_denom(funds: &Vec<Coin>, denom: &String) -> (r: Option<usize>)
    ensures
        match r {
            Some(i) => i < funds.len() && funds.deep_view()[i as int].denom == denom@ && forall|j:
                int|
                0 <= j < i ==> funds.deep_view()[j].denom != denom@,
            None => forall|j: int| 0 <= j < funds.len() ==> funds.deep_view()[j].denom != denom@,
        },
{
    let mut i: usize = 0;
    while i < funds.len()
        invariant
            i <= funds.len(),
            forall|j: int| 0 <= j < i ==> funds.deep_view()[j].denom != denom@,
        decreases funds.len() - i,
    {
        if funds[i].denom == *denom {
            return Some(i);
        }
        i = i + 1;
    }
    None
}

/// Checked subtraction of one required amount from a fund list. Fails, leaving
/// the list unchanged, exactly when the list holds less than `amount` of
/// `denom`; never drives any denomination negative.
fn sub_coin(funds: &mut Vec<Coin>, denom: &String, amount: u128) -> (ok: bool)
    requires
        wf_funds(old(funds).deep_view()),
    ensures
        wf_funds(final(funds).deep_view()),
        ok <==> amount_in(old(funds).deep_view(), denom@) >= amount,
        ok ==> forall|d: Seq<char>|
            amount_in(final(funds).deep_view(), d) + (if d == denom@ {
                amount as nat
            } else {
                0
            }) == amount_in(old(funds).deep_view(), d),
        !ok ==> final(funds).deep_view() == old(funds).deep_view(),
{
    let ghost s0 = funds.deep_view();
    match find_denom(funds, denom) {
        None => {
            proof {
                lemma_amount_in_absent(s0, denom@);
                assert(forall|d: Seq<char>|
                    amount_in(s0, d) + (if d == denom@ {
                        0nat
                    } else {
                        0nat
                    }) == amount_in(s0, d));
            }
            amount == 0
        },
        Some(i) => {
            proof {
                lemma_amount_in_split(s0, i as int, denom@);
                lemma_amount_in_absent(s0.take(i as int), denom@);
                let suffix = s0.skip(i + 1);
                assert forall|j: int| 0 <= j < suffix.len() implies (#[trigger] suffix[j]).denom
                    != denom@ by {
                    assert(suffix[j] == s0[i + 1 + j]);
                }
                lemma_amount_in_absent(suffix, denom@);
                assert(amount_in(s0, denom@) == s0[i as int].amount);
            }
            let have = funds[i].amount;
            if have >= amount {
                if have == amount {
                    funds.remove(i);
                    proof {
                        assert(funds.deep_view() =~= s0.take(i as int) + s0.skip(i as int + 1));
                        assert forall|d: Seq<char>|
                            amount_in(funds.deep_view(), d) + (if d == denom@ {
                                amount as nat
                            } else {
                                0nat
                            }) == amount_in(s0, d) by {
                            lemma_amount_in_concat(s0.take(i as int), s0.skip(i as int + 1), d);
                            lemma_amount_in_split(s0, i as int, d);
                        }
                    }
                } else {
                    let replacement = Coin { denom: denom.clone(), amount: have - amount };
                    funds.set(i, replacement);
                    proof {
                        let s1 = funds.deep_view();
                        assert(s1 =~= s0.update(
                            i as int,
                            CoinView { denom: denom@, amount: (have - amount) as u128 },
                        ));
                        assert(s1.take(i as int) =~= s0.take(i as int));
                        assert(s1.skip(i as int + 1) =~= s0.skip(i as int + 1));
                        assert forall|d: Seq<char>|
                            amount_in(s1, d) + (if d == denom@ {
                                amount as nat
                            } else {
                                0nat
                            }) == amount_in(s0, d) by {
                            lemma_amount_in_split(s1, i as int, d);
                            lemma_amount_in_split(s0, i as int, d);
                        }
                    }
                }
                true
            } else {
                false
            }
        },
    }
}

/// Partitions a deposit: subtracts every unit required for installation, then
/// every unit required for namespace registration, and returns the residual.
/// All-or-nothing: on any shortfall the error reports the whole expected total
/// against the whole deposit, and no partial subtraction is visible.
///
/// For every deposit that covers `install_cost + namespace_cost`
/// denomination-wise the partition succeeds, and the residual is exactly the
/// deposit minus both costs; any deposit failing that inequality on any
/// denomination is rejected with a fee-mismatch error.
pub fn partition_funds(deposit: Vec<Coin>, install_cost: &Vec<Coin>, namespace_cost: &Vec<Coin>)
    -> (r: Result<Vec<Coin>, FactoryError>)
    requires
        wf_funds(deposit.deep_view()),
    ensures
        r is Ok <==> (forall|d: Seq<char>|
            amount_in(deposit.deep_view(), d) >= amount_in(install_cost.deep_view(), d)
                + amount_in(namespace_cost.deep_view(), d)),
        r matches Ok(residual) ==> wf_funds(residual.deep_view()) && (forall|d: Seq<char>|
            amount_in(residual.deep_view(), d) + amount_in(install_cost.deep_view(), d)
                + amount_in(namespace_cost.deep_view(), d) == amount_in(deposit.deep_view(), d)),
        r matches Err(e) ==> e matches FactoryError::FeeMismatch { expected, sent }
            && expected.deep_view() == install_cost.deep_view() + namespace_cost.deep_view()
            && sent.deep_view() == deposit.deep_view(),
{
    let ghost dep0 = deposit.deep_view();
    let ghost ic = install_cost.deep_view();
    let ghost nc = namespace_cost.deep_view();
    let mut working = clone_funds(&deposit);

    let mut i: usize = 0;
    while i < install_cost.len()
        invariant
            i <= install_cost.len(),
            wf_funds(working.deep_view()),
            wf_funds(dep0),
            dep0 == deposit.deep_view(),
            ic == install_cost.deep_view(),
            nc == namespace_cost.deep_view(),
            forall|d: Seq<char>|
                amount_in(working.deep_view(), d) + amount_in(ic.take(i as int), d) == amount_in(
                    dep0,
                    d,
                ),
        decreases install_cost.len() - i,
    {
        let ok = sub_coin(&mut working, &install_cost[i].denom, install_cost[i].amount);
        if !ok {
            proof {
                let d = ic[i as int].denom;
                lemma_amount_in_take_succ(ic, i as int, d);
                lemma_amount_in_prefix(ic, i as int + 1, d);
                assert(amount_in(dep0, d) < amount_in(ic, d) + amount_in(nc, d));
            }
            let expected = concat_funds(install_cost, namespace_cost);
            return Err(FactoryError::FeeMismatch { expected, sent: deposit });
        }
        proof {
            let w1 = working.deep_view();
            assert forall|d: Seq<char>|
                amount_in(w1, d) + amount_in(ic.take(i as int + 1), d) == amount_in(dep0, d) by {
                lemma_amount_in_take_succ(ic, i as int, d);
            }
        }
        i = i + 1;
    }
    proof {
        assert(ic.take(install_cost.len() as int) =~= ic);
    }

    let mut j: usize = 0;
    while j < namespace_cost.len()
        invariant
            j <= namespace_cost.len(),
            wf_funds(working.deep_view()),
            wf_funds(dep0),
            dep0 == deposit.deep_view(),
            ic == install_cost.deep_view(),
            nc == namespace_cost.deep_view(),
            forall|d: Seq<char>|
                amount_in(working.deep_view(), d) + amount_in(ic, d) + amount_in(
                    nc.take(j as int),
                    d,
                ) == amount_in(dep0, d),
        decreases namespace_cost.len() - j,
    {
        let ok = sub_coin(&mut working, &namespace_cost[j].denom, namespace_cost[j].amount);
        if !ok {
            proof {
                let d = nc[j as int].denom;
                lemma_amount_in_take_succ(nc, j as int, d);
                lemma_amount_in_prefix(nc, j as int + 1, d);
                assert(amount_in(dep0, d) < amount_in(ic, d) + amount_in(nc, d));
            }
            let expected = concat_funds(install_cost, namespace_cost);
            return Err(FactoryError::FeeMismatch { expected, sent: deposit });
        }
        proof {
            let w1 = working.deep_view();
            assert forall|d: Seq<char>|
                amount_in(w1, d) + amount_in(ic, d) + amount_in(nc.take(j as int + 1), d)
                    == amount_in(dep0, d) by {
                lemma_amount_in_take_succ(nc, j as int, d);
            }
        }
        j = j + 1;
    }
    proof {
        assert(nc.take(namespace_cost.len() as int) =~= nc);
    }
    Ok(working)
}

/// One list holding the entries of `a` followed by those of `b`.
pub fn concat_funds(a: &Vec<Coin>, b: &Vec<Coin>) -> (r: Vec<Coin>)
    ensures
        r.deep_view() == a.deep_view() + b.deep_view(),
{
    let mut r = clone_funds(a);
    assert(r@.len() == a@.len()) by {
        assert(r.deep_view().len() == a.deep_view().len());
    }
    let mut i: usize = 0;
    while i < b.len()
        invariant
            i <= b.len(),
            r@.len() == a@.len() + i,
            forall|j: int| 0 <= j < a@.len() ==> r.deep_view()[j] == a.deep_view()[j],
            forall|j: int| 0 <= j < i ==> r@[a@.len() + j] == b@[j],
        decreases b.len() - i,
    {
        r.push(b[i].clone());
        i = i + 1;
    }
    proof {
        assert forall|k: int| 0 <= k < r@.len() implies r.deep_view()[k] == (a.deep_view()
            + b.deep_view())[k] by {
            if k >= a@.len() {
                assert(r@[k] == b@[k - a@.len()]);
            }
        }
        assert(r.deep_view() =~= a.deep_view() + b.deep_view());
    }
    r
}

} // verus!
