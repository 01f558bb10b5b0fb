//! The permission-group data model, the polymorphic sources that produce
//! groups, and the evaluator that merges groups and checks a caller address
//! against the merged result.

use crate::context::{Addr, Env};
use crate::error::{AuthErrorView, NeptAuthError, NeptAuthResult};
use vstd::prelude::*;

verus! {

/// The basic type for a permission group: either open to any caller, or
/// restricted to an explicit list of addresses. Duplicates are permitted in
/// the list and order is irrelevant to the semantics; a caller must match
/// one entry exactly.
#[derive(Debug)]
pub enum PermissionGroup {
    Public,
    Restricted(Vec<Addr>),
}

/// The mathematical model of a [`PermissionGroup`]: addresses as character
/// sequences.
#[verifier::ext_equal]
pub enum PermissionGroupView {
    Public,
    Restricted(Seq<Seq<char>>),
}

/// The model of a list of addresses: each address as its character sequence.
pub open spec fn addrs_view(addrs: Seq<Addr>) -> Seq<Seq<char>> {
    addrs.map_values(|a: Addr| a@)
}

impl View for PermissionGroup {
    type V = PermissionGroupView;

    open spec fn view(&self) -> PermissionGroupView {
        match self {
            PermissionGroup::Public => PermissionGroupView::Public,
            PermissionGroup::Restricted(addrs) => PermissionGroupView::Restricted(addrs_view(addrs@)),
        }
    }
}

impl Clone for PermissionGroup {
    fn clone(&self) -> (r: PermissionGroup)
        ensures
            r@ == self@,
    {
        match self {
            PermissionGroup::Public => PermissionGroup::Public,
            PermissionGroup::Restricted(addrs) => {
                let mut copy: Vec<Addr> = Vec::new();
                let mut i: usize = 0;
                while i < addrs.len()
                    invariant
                        i <= addrs.len(),
                        copy@.len() == i,
                        forall|j: int| 0 <= j < i ==> copy@[j]@ == addrs@[j]@,
                    decreases addrs.len() - i,
                {
                    copy.push(addrs[i].clone());
                    i = i + 1;
                }
                proof {
                    assert(addrs_view(copy@) =~= addrs_view(addrs@));
                }
                PermissionGroup::Restricted(copy)
            }
        }
    }
}

/// The addresses a group contributes to a merge: a `Public` group
/// contributes none, a `Restricted` group its whole list.
pub open spec fn addresses_of(g: PermissionGroupView) -> Seq<Seq<char>> {
    match g {
        PermissionGroupView::Public => Seq::empty(),
        PermissionGroupView::Restricted(addrs) => addrs,
    }
}

/// The address lists of all groups, concatenated in input order with
/// duplicates retained.
pub open spec fn concat_addresses(gs: Seq<PermissionGroupView>) -> Seq<Seq<char>>
    decreases gs.len(),
{
    if gs.len() == 0 {
        Seq::empty()
    } else {
        concat_addresses(gs.drop_last()) + addresses_of(gs.last())
    }
}

/// Whether some group of the sequence is `Public`.
pub open spec fn has_public(gs: Seq<PermissionGroupView>) -> bool {
    exists|i: int| 0 <= i < gs.len() && gs[i] is Public
}

/// The merge (flatten) rule. An empty sequence is a configuration error,
/// never silently open or closed. A single group passes through unchanged,
/// whatever its variant. With two or more groups, `Public` anywhere is a
/// configuration error; otherwise the restricted lists are concatenated in
/// input order, duplicates retained.
pub open spec fn flatten_spec(gs: Seq<PermissionGroupView>) -> Result<
    PermissionGroupView,
    AuthErrorView,
> {
    if gs.len() == 0 {
        Err(AuthErrorView::EmptyPermissionGroupList)
    } else if gs.len() == 1 {
        Ok(gs[0])
    } else if has_public(gs) {
        Err(AuthErrorView::InvalidPublic)
    } else {
        Ok(PermissionGroupView::Restricted(concat_addresses(gs)))
    }
}

/// The model of a sequence of groups: each group as its view.
pub open spec fn groups_view(gs: Seq<PermissionGroup>) -> Seq<PermissionGroupView> {
    gs.map_values(|g: PermissionGroup| g@)
}

/// The model of a fallible computation of one group.
pub open spec fn group_result_view(r: NeptAuthResult<PermissionGroup>) -> Result<
    PermissionGroupView,
    AuthErrorView,
> {
    match r {
        Ok(g) => Ok(g@),
        Err(e) => Err(e@),
    }
}

/// Moves a copy of every address of `src` onto the end of `dst`.
fn append_addresses(dst: &mut Vec<Addr>, src: &Vec<Addr>)
    ensures
        addrs_view(final(dst)@) == addrs_view(old(dst)@) + addrs_view(src@),
{
    let mut j: usize = 0;
    while j < src.len()
        invariant
            j <= src.len(),
            dst@.len() == old(dst)@.len() + j,
            forall|k: int| 0 <= k < old(dst)@.len() ==> dst@[k]@ == old(dst)@[k]@,
            forall|k: int| 0 <= k < j ==> dst@[old(dst)@.len() + k]@ == src@[k]@,
        decreases src.len() - j,
    {
        dst.push(src[j].clone());
        j = j + 1;
    }
    proof {
        assert(addrs_view(dst@) =~= addrs_view(old(dst)@) + addrs_view(src@));
    }
}

/// Flattens a permission group list into a single permission group,
/// following the merge rule of [`flatten_spec`] exactly.
pub fn flatten_permissions(permission_group_vec: Vec<PermissionGroup>) -> (r: NeptAuthResult<
    PermissionGroup,
>)
    ensures
        group_result_view(r) == flatten_spec(groups_view(permission_group_vec@)),
{
    if permission_group_vec.len() == 0 {
        // Don't allow empty permission groups.
        Err(NeptAuthError::EmptyPermissionGroupList)
    } else if permission_group_vec.len() == 1 {
        // We only allow the public permission group if it is alone.
        let mut single = permission_group_vec;
        let g = single.remove(0);
        Ok(g)
    } else {
        // General case, flatten all the permission groups into one.
        let ghost gs = groups_view(permission_group_vec@);
        let mut result_vec: Vec<Addr> = Vec::new();
        let mut i: usize = 0;
        while i < permission_group_vec.len()
            invariant
                gs == groups_view(permission_group_vec@),
                2 <= permission_group_vec@.len(),
                i <= permission_group_vec.len(),
                forall|j: int| 0 <= j < i ==> !(#[trigger] gs[j] is Public),
                addrs_view(result_vec@) == concat_addresses(gs.take(i as int)),
            decreases permission_group_vec.len() - i,
        {
            match &permission_group_vec[i] {
                PermissionGroup::Public => {
                    proof {
                        assert(gs[i as int] is Public);
                    }
                    return Err(NeptAuthError::InvalidPublic);
                },
                PermissionGroup::Restricted(addrs) => {
                    append_addresses(&mut result_vec, addrs);
                    proof {
                        assert(gs.take(i as int + 1).drop_last() =~= gs.take(i as int));
                        assert(gs.take(i as int + 1).last() == gs[i as int]);
                        assert(addresses_of(gs[i as int]) == addrs_view(addrs@));
                    }
                },
            }
            i = i + 1;
        }
        proof {
            assert(gs.take(gs.len() as int) =~= gs);
            assert(!has_public(gs));
        }
        Ok(PermissionGroup::Restricted(result_vec))
    }
}

/// Merging an empty sequence fails with `EmptyPermissionGroupList`: an
/// empty source list is a configuration error, never an open or closed
/// verdict.
pub proof fn lemma_flatten_empty()
    ensures
        flatten_spec(Seq::<PermissionGroupView>::empty()) == Err::<PermissionGroupView, _>(
            AuthErrorView::EmptyPermissionGroupList,
        ),
{
}

/// Merging a lone group yields that group unchanged, whatever its variant;
/// in particular a lone `Public` entry is valid and means "anyone".
pub proof fn lemma_flatten_singleton(g: PermissionGroupView)
    ensures
        flatten_spec(seq![g]) == Ok::<_, AuthErrorView>(g),
{
}

/// Merging two restricted groups yields one restricted group holding the
/// two address lists concatenated in input order, duplicates retained.
pub proof fn lemma_flatten_two_restricted(a: Seq<Seq<char>>, b: Seq<Seq<char>>)
    ensures
        flatten_spec(seq![PermissionGroupView::Restricted(a), PermissionGroupView::Restricted(b)])
            == Ok::<_, AuthErrorView>(PermissionGroupView::Restricted(a + b)),
{
    let gs = seq![PermissionGroupView::Restricted(a), PermissionGroupView::Restricted(b)];
    assert(!has_public(gs)) by {
        assert forall|i: int| 0 <= i < gs.len() implies !(gs[i] is Public) by {
            assert(i == 0 || i == 1);
        }
    }
    let s1 = seq![PermissionGroupView::Restricted(a)];
    assert(gs.drop_last() =~= s1);
    assert(s1.drop_last() =~= Seq::<PermissionGroupView>::empty());
    assert(concat_addresses(s1.drop_last()) =~= Seq::<Seq<char>>::empty());
    assert(concat_addresses(s1) =~= a);
    assert(concat_addresses(gs) =~= a + b);
}

/// With two or more groups, a `Public` entry anywhere — whatever its
/// position — makes the merge fail with `InvalidPublic`.
pub proof fn lemma_flatten_public_not_alone(gs: Seq<PermissionGroupView>, i: int)
    requires
        2 <= gs.len(),
        0 <= i < gs.len(),
        gs[i] is Public,
    ensures
        flatten_spec(gs) == Err::<PermissionGroupView, _>(AuthErrorView::InvalidPublic),
{
}

/// This trait determines how a permission group is retrieved. A source is a
/// polymorphic provider that, given read-only execution context, resolves to
/// one permission group or fails. `C` is the context type the embedding
/// application hands to its sources; the base sources ignore it.
pub trait GetPermissionGroup<C> {
    /// The group this source resolves to in the given context, or its
    /// failure; the executable method returns exactly this.
    spec fn spec_permission_group(&self, deps: &C, env: &Env) -> Result<
        PermissionGroupView,
        AuthErrorView,
    >;

    /// The human-readable name of this source, used to describe denied
    /// requests.
    spec fn spec_describe(&self) -> Seq<char>;

    /// Resolves this source to a permission group in the given context.
    fn get_permission_group(&self, deps: &C, env: &Env) -> (r: NeptAuthResult<PermissionGroup>)
        ensures
            group_result_view(r) == self.spec_permission_group(deps, env),
    ;

    /// The human-readable name of this source.
    fn describe(&self) -> (r: String)
        ensures
            r@ == self.spec_describe(),
    ;
}

/// An ordered, non-owning sequence of permission sources, scoped to one
/// authorization check.
pub type PermissionGroupList<'a, T> = Vec<&'a T>;

/// The sources of a list as values, in order.
pub open spec fn deref_list<T>(ps: Seq<&T>) -> Seq<T> {
    ps.map_values(|p: &T| *p)
}

/// These base permission groups are starting points. You should create
/// other enums for custom permission groups.
#[derive(Debug)]
pub enum BasePermissionGroups {
    Internal,
    Public,
}

impl Clone for BasePermissionGroups {
    fn clone(&self) -> (r: BasePermissionGroups)
        ensures
            r == self,
    {
        match self {
            BasePermissionGroups::Internal => BasePermissionGroups::Internal,
            BasePermissionGroups::Public => BasePermissionGroups::Public,
        }
    }
}

/// This is an example of how to implement the GetPermissionGroup trait.
impl<C> GetPermissionGroup<C> for BasePermissionGroups {
    open spec fn spec_permission_group(&self, deps: &C, env: &Env) -> Result<
        PermissionGroupView,
        AuthErrorView,
    > {
        match self {
            BasePermissionGroups::Internal => Ok(
                PermissionGroupView::Restricted(seq![env.contract.address@]),
            ),
            BasePermissionGroups::Public => Ok(PermissionGroupView::Public),
        }
    }

    open spec fn spec_describe(&self) -> Seq<char> {
        match self {
            BasePermissionGroups::Internal => "Internal"@,
            BasePermissionGroups::Public => "Public"@,
        }
    }

    fn get_permission_group(&self, deps: &C, env: &Env) -> (r: NeptAuthResult<PermissionGroup>) {
        match self {
            BasePermissionGroups::Internal => {
                let mut addrs: Vec<Addr> = Vec::new();
                addrs.push(env.contract.address.clone());
                proof {
                    assert(addrs_view(addrs@) =~= seq![env.contract.address@]);
                }
                Ok(PermissionGroup::Restricted(addrs))
            },
            BasePermissionGroups::Public => Ok(PermissionGroup::Public),
        }
    }

    fn describe(&self) -> (r: String) {
        match self {
            BasePermissionGroups::Internal => String::from_str("Internal"),
            BasePermissionGroups::Public => String::from_str("Public"),
        }
    }
}

/// The groups that querying every source of `ps` in order yields, or the
/// first failure encountered, with no partial results retained.
pub open spec fn collect_spec<C, T: GetPermissionGroup<C>>(
    ps: Seq<T>,
    deps: &C,
    env: &Env,
) -> Result<Seq<PermissionGroupView>, AuthErrorView>
    decreases ps.len(),
{
    if ps.len() == 0 {
        Ok(Seq::empty())
    } else {
        match collect_spec(ps.drop_last(), deps, env) {
            Err(e) => Err(e),
            Ok(gs) => match ps.last().spec_permission_group(deps, env) {
                Ok(g) => Ok(gs.push(g)),
                Err(e) => Err(e),
            },
        }
    }
}

/// Once querying some prefix of the sources has failed, querying the whole
/// list fails with that same first failure.
proof fn lemma_collect_err_stable<C, T: GetPermissionGroup<C>>(
    ps: Seq<T>,
    j: int,
    deps: &C,
    env: &Env,
)
    requires
        0 <= j <= ps.len(),
        collect_spec(ps.take(j), deps, env) is Err,
    ensures
        collect_spec(ps, deps, env) == collect_spec(ps.take(j), deps, env),
    decreases ps.len() - j,
{
    if j == ps.len() {
        assert(ps.take(j) =~= ps);
    } else {
        assert(ps.take(j + 1).drop_last() =~= ps.take(j));
        lemma_collect_err_stable(ps, j + 1, deps, env);
    }
}

/// The names of the sources of `ps`, separated by `", "`.
pub open spec fn describe_items<C, T: GetPermissionGroup<C>>(ps: Seq<T>) -> Seq<char>
    decreases ps.len(),
{
    if ps.len() == 0 {
        Seq::empty()
    } else if ps.len() == 1 {
        ps.last().spec_describe()
    } else {
        describe_items::<C, T>(ps.drop_last()) + ", "@ + ps.last().spec_describe()
    }
}

/// The diagnostic rendering of a source list: the names of its sources in
/// order, comma-separated and bracketed.
pub open spec fn describe_list<C, T: GetPermissionGroup<C>>(ps: Seq<T>) -> Seq<char> {
    "["@ + describe_items::<C, T>(ps) + "]"@
}

/// The model of the evaluator's verdict.
pub open spec fn unit_result_view(r: NeptAuthResult<()>) -> Result<(), AuthErrorView> {
    match r {
        Ok(u) => Ok(u),
        Err(e) => Err(e@),
    }
}

/// What the evaluator decides: every source is queried in order and the
/// first failure is returned as is; the results are merged under the
/// flatten rule, whose failure is returned unchanged; then a merged
/// `Public` admits any caller, while a merged `Restricted` admits exactly
/// the callers appearing in it and turns every other caller away with
/// `Unauthorized`, carrying the caller address and the rendering of the
/// pre-merge source list.
pub open spec fn authorize_spec<C, T: GetPermissionGroup<C>>(
    ps: Seq<T>,
    deps: &C,
    env: &Env,
    caller: Seq<char>,
) -> Result<(), AuthErrorView> {
    match collect_spec(ps, deps, env) {
        Err(e) => Err(e),
        Ok(gs) => match flatten_spec(gs) {
            Err(e) => Err(e),
            Ok(PermissionGroupView::Public) => Ok(()),
            Ok(PermissionGroupView::Restricted(addrs)) => if addrs.contains(caller) {
                Ok(())
            } else {
                Err(
                    AuthErrorView::Unauthorized {
                        sender: caller,
                        permission_group: describe_list::<C, T>(ps),
                    },
                )
            },
        },
    }
}

/// The evaluator allows any caller when the sources merge to `Public`.
pub proof fn lemma_authorize_public<C, T: GetPermissionGroup<C>>(
    ps: Seq<T>,
    deps: &C,
    env: &Env,
    caller: Seq<char>,
)
    requires
        collect_spec(ps, deps, env) matches Ok(gs) && flatten_spec(gs) == Ok::<_, AuthErrorView>(
            PermissionGroupView::Public,
        ),
    ensures
        authorize_spec(ps, deps, env, caller) == Ok::<(), AuthErrorView>(()),
{
}

/// When the sources merge to a restricted address list, the evaluator
/// allows the caller exactly when the caller appears in that list, and
/// turns every other caller away with `Unauthorized` carrying the caller
/// address and the rendering of the pre-merge source list.
pub proof fn lemma_authorize_restricted<C, T: GetPermissionGroup<C>>(
    ps: Seq<T>,
    deps: &C,
    env: &Env,
    caller: Seq<char>,
    addrs: Seq<Seq<char>>,
)
    requires
        collect_spec(ps, deps, env) matches Ok(gs) && flatten_spec(gs) == Ok::<_, AuthErrorView>(
            PermissionGroupView::Restricted(addrs),
        ),
    ensures
        authorize_spec(ps, deps, env, caller) == Ok::<(), AuthErrorView>(()) <==> addrs.contains(
            caller,
        ),
        !addrs.contains(caller) ==> authorize_spec(ps, deps, env, caller) == Err::<(), _>(
            AuthErrorView::Unauthorized {
                sender: caller,
                permission_group: describe_list::<C, T>(ps),
            },
        ),
{
}

/// Evaluating the same sources against the same context twice yields the
/// same outcome: any two results that satisfy the evaluator's contract on
/// equal inputs are equal, because that contract determines the outcome
/// from the inputs alone.
pub proof fn lemma_authorize_idempotent<C, T: GetPermissionGroup<C>>(
    r1: NeptAuthResult<()>,
    r2: NeptAuthResult<()>,
    ps: Seq<T>,
    deps: &C,
    env: &Env,
    caller: Seq<char>,
)
    requires
        unit_result_view(r1) == authorize_spec(ps, deps, env, caller),
        unit_result_view(r2) == authorize_spec(ps, deps, env, caller),
    ensures
        unit_result_view(r1) == unit_result_view(r2),
{
}

/// Whether the address list holds the given address, by exact equality.
fn contains_addr(addrs: &Vec<Addr>, addr: &Addr) -> (r: bool)
    ensures
        r == addrs_view(addrs@).contains(addr@),
{
    let mut i: usize = 0;
    while i < addrs.len()
        invariant
            i <= addrs@.len(),
            forall|j: int| 0 <= j < i ==> addrs@[j]@ != addr@,
        decreases addrs@.len() - i,
    {
        if addrs[i].text == addr.text {
            proof {
                assert(addrs_view(addrs@)[i as int] == addr@);
            }
            return true;
        }
        i = i + 1;
    }
    proof {
        assert forall|j: int| 0 <= j < addrs_view(addrs@).len() implies addrs_view(addrs@)[j]
            != addr@ by {
            assert(addrs_view(addrs@)[j] == addrs@[j]@);
        }
    }
    false
}

/// Renders the pre-merge source list for diagnostics, as
/// [`describe_list`] states.
pub fn describe_permission_group_list<C, T: GetPermissionGroup<C>>(
    permissions: &PermissionGroupList<'_, T>,
) -> (r: String)
    ensures
        r@ == describe_list::<C, T>(deref_list(permissions@)),
{
    let ghost ps = deref_list(permissions@);
    let mut out = String::from_str("[");
    proof {
        assert(out@ =~= "["@ + describe_items::<C, T>(ps.take(0)));
    }
    let mut i: usize = 0;
    while i < permissions.len()
        invariant
            ps == deref_list(permissions@),
            i <= ps.len(),
            out@ == "["@ + describe_items::<C, T>(ps.take(i as int)),
        decreases ps.len() - i,
    {
        if i > 0 {
            out.append(", ");
        }
        let d = permissions[i].describe();
        out.append(d.as_str());
        proof {
            assert(ps.take(i as int + 1).drop_last() =~= ps.take(i as int));
            assert(ps.take(i as int + 1).last() == ps[i as int]);
            assert(out@ =~= "["@ + describe_items::<C, T>(ps.take(i as int + 1)));
        }
        i = i + 1;
    }
    out.append("]");
    proof {
        assert(ps.take(ps.len() as int) =~= ps);
    }
    out
}

/// Verifies that the given address is contained within the given permission
/// group list: queries every source, merges the groups, and checks the
/// address against the merged result, exactly as [`authorize_spec`] states.
pub fn authorize_permissions<C, T: GetPermissionGroup<C>>(
    deps: &C,
    env: &Env,
    addr: &Addr,
    permissions: &PermissionGroupList<'_, T>,
) -> (r: NeptAuthResult<()>)
    ensures
        unit_result_view(r) == authorize_spec(deref_list(permissions@), deps, env, addr@),
{
    let ghost ps = deref_list(permissions@);
    let mut collected: Vec<PermissionGroup> = Vec::new();
    proof {
        assert(ps.take(0) =~= Seq::<T>::empty());
        assert(groups_view(collected@) =~= Seq::<PermissionGroupView>::empty());
    }
    let mut i: usize = 0;
    while i < permissions.len()
        invariant
            ps == deref_list(permissions@),
            i <= ps.len(),
            collect_spec(ps.take(i as int), deps, env) == Ok::<_, AuthErrorView>(
                groups_view(collected@),
            ),
        decreases ps.len() - i,
    {
        proof {
            assert(ps.take(i as int + 1).drop_last() =~= ps.take(i as int));
            assert(ps.take(i as int + 1).last() == ps[i as int]);
            assert(ps[i as int] == *(permissions@[i as int]));
        }
        match permissions[i].get_permission_group(deps, env) {
            Ok(g) => {
                let ghost before = collected@;
                collected.push(g);
                proof {
                    assert(groups_view(collected@) =~= groups_view(before).push(g@));
                }
            },
            Err(e) => {
                proof {
                    lemma_collect_err_stable(ps, i as int + 1, deps, env);
                }
                return Err(e);
            },
        }
        i = i + 1;
    }
    proof {
        assert(ps.take(ps.len() as int) =~= ps);
    }
    let flattened = flatten_permissions(collected);
    match flattened {
        Err(e) => Err(e),
        Ok(PermissionGroup::Public) => Ok(()),
        Ok(PermissionGroup::Restricted(vec)) => {
            if contains_addr(&vec, addr) {
                Ok(())
            } else {
                let rendering = describe_permission_group_list(permissions);
                Err(NeptAuthError::Unauthorized { sender: addr.clone(), permission_group: rendering })
            }
        },
    }
}

/// This trait should be implemented by any action type that carries its own
/// permission source list and requires authorization.
pub trait NeptuneAuth<C, T: GetPermissionGroup<C>> {
    /// The source list this action exposes, or the failure producing it.
    spec fn spec_permissions(&self) -> Result<Seq<T>, AuthErrorView>;

    /// The permission sources that gate this action, produced fresh for one
    /// authorization check.
    fn permissions(&self) -> (r: NeptAuthResult<PermissionGroupList<'_, T>>)
        ensures
            match r {
                Ok(ps) => self.spec_permissions() == Ok::<_, AuthErrorView>(deref_list(ps@)),
                Err(e) => self.spec_permissions() == Err::<Seq<T>, _>(e@),
            },
    ;

    /// This function is placed inside the contracts' execute function: it
    /// resolves this action's sources and evaluates them against the caller
    /// address, propagating a failed source list verbatim.
    fn neptune_authorize(&self, deps: &C, env: &Env, address: &Addr) -> (r: NeptAuthResult<()>)
        ensures
            match self.spec_permissions() {
                Ok(ps) => unit_result_view(r) == authorize_spec(ps, deps, env, address@),
                Err(e) => unit_result_view(r) == Err::<(), AuthErrorView>(e),
            },
    {
        let permissions = match self.permissions() {
            Ok(p) => p,
            Err(e) => return Err(e),
        };
        authorize_permissions(deps, env, address, &permissions)
    }
}

} // verus!
