//! Roles: the ladder of levels, and who may administer what.

use crate::identity::JwtData;
use crate::reply::{problem, problem_of, Problem, ProblemKind, ProblemView};
use crate::text::{cat3, same, texts};
use vstd::prelude::*;

verus! {

/// The level of a built-in role.
pub open spec fn builtin_level_of(name: Seq<char>) -> Option<i64> {
    if name == "root"@ {
        Some(100)
    } else if name == "admin"@ {
        Some(80)
    } else if name == "scim"@ {
        Some(60)
    } else if name == "user"@ {
        Some(40)
    } else if name == "guest"@ {
        Some(20)
    } else {
        None
    }
}

/// The level of a built-in role, where `name` names one.
pub fn builtin_level(name: &str) -> (r: Option<i64>)
    ensures
        r == builtin_level_of(name@),
{
    if same(name, "root") {
        Some(100)
    } else if same(name, "admin") {
        Some(80)
    } else if same(name, "scim") {
        Some(60)
    } else if same(name, "user") {
        Some(40)
    } else if same(name, "guest") {
        Some(20)
    } else {
        None
    }
}

/// Who administers: the set-up of a tenant, which may do anything, or the
/// holder of a session.
pub enum Caller {
    Bootstrap,
    Jwt(JwtData),
}

/// Why an administrative operation is refused.
pub enum AdminError {
    Forbidden,
    Conflict(String),
}

pub enum AdminErrorView {
    Forbidden,
    Conflict(Seq<char>),
}

impl View for AdminError {
    type V = AdminErrorView;

    open spec fn view(&self) -> AdminErrorView {
        match self {
            AdminError::Forbidden => AdminErrorView::Forbidden,
            AdminError::Conflict(m) => AdminErrorView::Conflict(m@),
        }
    }
}

/// What is said of a refusal.
pub open spec fn admin_error_text(e: AdminErrorView) -> Seq<char> {
    match e {
        AdminErrorView::Forbidden => "role level is not below the caller's effective level"@,
        AdminErrorView::Conflict(m) => m,
    }
}

impl AdminError {
    pub fn message(&self) -> (r: String)
        ensures
            r@ == admin_error_text(self@),
    {
        match self {
            AdminError::Forbidden => {
                "role level is not below the caller's effective level".to_owned()
            },
            AdminError::Conflict(m) => m.clone(),
        }
    }
}

/// A role of the tenant.
pub struct Role {
    pub id: String,
    pub level: i64,
    /// Built-in roles can be neither changed nor deleted.
    pub builtin: bool,
}

/// The level of the role `name` in a table of roles, where it is there.
pub open spec fn level_in(table: Seq<Role>, name: Seq<char>) -> Option<i64>
    decreases table.len(),
{
    if table.len() == 0 {
        None
    } else if table[0].id@ == name {
        Some(table[0].level)
    } else {
        level_in(table.skip(1), name)
    }
}

fn find_level(table: &Vec<Role>, name: &str) -> (r: Option<i64>)
    ensures
        r == level_in(table@, name@),
{
    let mut i: usize = 0;
    proof {
        assert(table@.skip(0) =~= table@);
    }
    while i < table.len()
        invariant
            i <= table@.len(),
            level_in(table@, name@) == level_in(table@.skip(i as int), name@),
        decreases table@.len() - i,
    {
        proof {
            assert(table@.skip(i as int)[0] == table@[i as int]);
            assert(table@.skip(i as int).skip(1) =~= table@.skip(i + 1));
        }
        if same(table[i].id.as_str(), name) {
            return Some(table[i].level);
        }
        i = i + 1;
    }
    None
}

/// The higher of two levels, where there are any.
pub open spec fn higher(a: Option<i64>, b: Option<i64>) -> Option<i64> {
    match (a, b) {
        (Some(x), Some(y)) => Some(if x < y {
            y
        } else {
            x
        }),
        (Some(x), None) => Some(x),
        (None, y) => y,
    }
}

fn pick_higher(a: Option<i64>, b: Option<i64>) -> (r: Option<i64>)
    ensures
        r == higher(a, b),
{
    match (a, b) {
        (Some(x), Some(y)) => if x < y {
            Some(y)
        } else {
            Some(x)
        },
        (Some(x), None) => Some(x),
        (None, y) => y,
    }
}

/// The highest level among the roles of `names` that the table knows.
pub open spec fn highest(names: Seq<Seq<char>>, table: Seq<Role>) -> Option<i64>
    decreases names.len(),
{
    if names.len() == 0 {
        None
    } else {
        higher(highest(names.drop_last(), table), level_in(table, names.last()))
    }
}

/// The level of a caller: unbounded for the set-up, else the highest among its
/// roles; none where none of them is known.
pub open spec fn caller_level(caller: Caller, table: Seq<Role>) -> Option<i64> {
    match caller {
        Caller::Bootstrap => Some(i64::MAX),
        Caller::Jwt(data) => highest(texts(data.roles@), table),
    }
}

/// The level of a caller, given the tenant's roles.
pub fn effective_level(caller: &Caller, table: &Vec<Role>) -> (r: Option<i64>)
    ensures
        r == caller_level(*caller, table@),
{
    let data = match caller {
        Caller::Bootstrap => {
            return Some(i64::MAX);
        },
        Caller::Jwt(data) => data,
    };
    let ghost names = texts(data.roles@);
    let mut best: Option<i64> = None;
    let mut i: usize = 0;
    while i < data.roles.len()
        invariant
            i <= data.roles@.len(),
            names == texts(data.roles@),
            best == highest(names.take(i as int), table@),
        decreases data.roles@.len() - i,
    {
        proof {
            assert(names.take(i + 1).drop_last() =~= names.take(i as int));
            assert(names.take(i + 1).last() == data.roles@[i as int]@);
        }
        best = pick_higher(best, find_level(table, data.roles[i].as_str()));
        i = i + 1;
    }
    proof {
        assert(names.take(names.len() as int) =~= names);
    }
    best
}

/// Whether a caller of a level stands strictly above another level.
pub open spec fn outranks(caller: Option<i64>, level: i64) -> bool {
    caller is Some && caller->0 > level
}

/// The condition of every role change: the set-up is unrestricted; a session
/// must stand strictly above the level at hand.
pub fn require_level(caller: &Caller, table: &Vec<Role>, level: i64) -> (r: Result<(), AdminError>)
    ensures
        r is Ok <==> *caller is Bootstrap || outranks(caller_level(*caller, table@), level),
        r matches Err(e) ==> e@ is Forbidden,
{
    if let Caller::Bootstrap = caller {
        return Ok(());
    }
    match effective_level(caller, table) {
        Some(l) => if l > level {
            Ok(())
        } else {
            Err(AdminError::Forbidden)
        },
        None => Err(AdminError::Forbidden),
    }
}

/// The condition for a role: the set-up is unrestricted; a session must stand
/// strictly above it.
pub fn require_below(caller: &Caller, table: &Vec<Role>, role: &Role) -> (r: Result<(), AdminError>)
    ensures
        r is Ok <==> *caller is Bootstrap || outranks(caller_level(*caller, table@), role.level),
        r matches Err(e) ==> e@ is Forbidden,
{
    require_level(caller, table, role.level)
}

/// The highest level among some roles.
pub open spec fn highest_of(roles: Seq<Role>) -> Option<i64>
    decreases roles.len(),
{
    if roles.len() == 0 {
        None
    } else {
        higher(highest_of(roles.drop_last()), Some(roles.last().level))
    }
}

/// The level of a stored user, given the user's roles; none where the store
/// cannot say or the user has none.
pub open spec fn user_level(roles: Option<Vec<Role>>) -> Option<i64> {
    match roles {
        Some(rs) => highest_of(rs@),
        None => None,
    }
}

pub fn user_effective_level(roles: &Option<Vec<Role>>) -> (r: Option<i64>)
    ensures
        r == user_level(*roles),
{
    let rs = match roles {
        Some(rs) => rs,
        None => {
            return None;
        },
    };
    let mut best: Option<i64> = None;
    let mut i: usize = 0;
    while i < rs.len()
        invariant
            i <= rs@.len(),
            best == highest_of(rs@.take(i as int)),
        decreases rs@.len() - i,
    {
        proof {
            assert(rs@.take(i + 1).drop_last() =~= rs@.take(i as int));
        }
        best = pick_higher(best, Some(rs[i].level));
        i = i + 1;
    }
    proof {
        assert(rs@.take(rs@.len() as int) =~= rs@);
    }
    best
}

/// Whether a caller may administer a user: the set-up may; anyone else must
/// have a level, and one strictly above the user's, where the user has any.
pub open spec fn may_administer(caller: Caller, table: Seq<Role>, target: Option<i64>) -> bool {
    match caller {
        Caller::Bootstrap => true,
        Caller::Jwt(_) => match target {
            Some(t) => outranks(caller_level(caller, table), t),
            None => caller_level(caller, table) is Some,
        },
    }
}

/// The condition for a user: the caller must stand strictly above the user.
pub fn require_above_user(caller: &Caller, table: &Vec<Role>, user_roles: &Option<Vec<Role>>) -> (r:
    Result<(), AdminError>)
    ensures
        r is Ok <==> may_administer(*caller, table@, user_level(*user_roles)),
        r matches Err(e) ==> e@ is Forbidden,
{
    if let Caller::Bootstrap = caller {
        return Ok(());
    }
    match (effective_level(caller, table), user_effective_level(user_roles)) {
        (Some(l), Some(t)) => if l > t {
            Ok(())
        } else {
            Err(AdminError::Forbidden)
        },
        (Some(_), None) => Ok(()),
        (None, _) => Err(AdminError::Forbidden),
    }
}

/// Why a role is not created or deleted.
pub enum RoleFault {
    Admin(AdminError),
    /// The request makes no sense.
    Invalid(String),
}

pub enum RoleFaultView {
    Admin(AdminErrorView),
    Invalid(Seq<char>),
}

impl View for RoleFault {
    type V = RoleFaultView;

    open spec fn view(&self) -> RoleFaultView {
        match self {
            RoleFault::Admin(e) => RoleFaultView::Admin(e@),
            RoleFault::Invalid(m) => RoleFaultView::Invalid(m@),
        }
    }
}

/// What creating a role comes to.
#[derive(Clone, Copy, Debug, PartialEq, Eq, Structural)]
pub enum RoleCreation {
    /// The role is there already and stays as it is.
    Keep,
    Create { level: i64, builtin: bool },
}

/// What creating a role comes to. The set-up creates the built-in roles at
/// their own levels, and finds what is there; anyone else may create neither a
/// built-in role nor one that exists, only one strictly below.
pub open spec fn creation(
    caller: Caller,
    name: Seq<char>,
    level: i64,
    exists_already: bool,
    table: Seq<Role>,
) -> Result<RoleCreation, RoleFaultView> {
    match builtin_level_of(name) {
        Some(catalog) => match caller {
            Caller::Jwt(_) => Err(RoleFaultView::Admin(AdminErrorView::Forbidden)),
            Caller::Bootstrap => if exists_already {
                Ok(RoleCreation::Keep)
            } else {
                Ok(RoleCreation::Create { level: catalog, builtin: true })
            },
        },
        None => match caller {
            Caller::Bootstrap => if exists_already {
                Ok(RoleCreation::Keep)
            } else {
                Ok(RoleCreation::Create { level, builtin: false })
            },
            Caller::Jwt(_) => if exists_already {
                Err(
                    RoleFaultView::Admin(
                        AdminErrorView::Conflict("role '"@ + name + "' already exists"@),
                    ),
                )
            } else if level < 0 {
                Err(RoleFaultView::Invalid("role level must be >= 0"@))
            } else if outranks(caller_level(caller, table), level) {
                Ok(RoleCreation::Create { level, builtin: false })
            } else {
                Err(RoleFaultView::Admin(AdminErrorView::Forbidden))
            },
        },
    }
}

/// Decides on the creation of a role. `exists_already` says whether the tenant
/// has a role of that name.
pub fn role_create(
    caller: &Caller,
    name: &str,
    level: i64,
    exists_already: bool,
    table: &Vec<Role>,
) -> (r: Result<RoleCreation, RoleFault>)
    ensures
        (match r {
            Ok(c) => Ok(c),
            Err(e) => Err(e@),
        }) == creation(*caller, name@, level, exists_already, table@),
{
    let bootstrap = match caller {
        Caller::Bootstrap => true,
        Caller::Jwt(_) => false,
    };
    if let Some(catalog) = builtin_level(name) {
        if !bootstrap {
            return Err(RoleFault::Admin(AdminError::Forbidden));
        }
        if exists_already {
            return Ok(RoleCreation::Keep);
        }
        return Ok(RoleCreation::Create { level: catalog, builtin: true });
    }
    if exists_already {
        if bootstrap {
            return Ok(RoleCreation::Keep);
        }
        return Err(
            RoleFault::Admin(AdminError::Conflict(cat3("role '", name, "' already exists"))),
        );
    }
    if !bootstrap {
        if level < 0 {
            return Err(RoleFault::Invalid("role level must be >= 0".to_owned()));
        }
        if let Err(e) = require_level(caller, table, level) {
            return Err(RoleFault::Admin(e));
        }
    }
    Ok(RoleCreation::Create { level, builtin: false })
}

/// Whether a caller may delete a role.
pub open spec fn may_delete(caller: Caller, role: Role, table: Seq<Role>) -> bool {
    !role.builtin && (caller is Bootstrap || outranks(caller_level(caller, table), role.level))
}

/// Decides on the deletion of a role: no built-in one, and for a session only
/// one strictly below it.
pub fn role_delete(caller: &Caller, role: &Role, table: &Vec<Role>) -> (r: Result<(), AdminError>)
    ensures
        r is Ok <==> may_delete(*caller, *role, table@),
        r matches Err(e) ==> e@ is Forbidden,
{
    if role.builtin {
        return Err(AdminError::Forbidden);
    }
    require_below(caller, table, role)
}

/// Why an administrative request is not even looked at: it cannot be read,
/// there is no session, or the tenant is unknown.
pub open spec fn request_fault(readable: bool, has_session: bool, has_tenant: bool) -> Option<
    ProblemView,
> {
    if !readable {
        Some(problem_of(400, ProblemKind::Validation, "Failed to parse request body"@))
    } else if !has_session {
        Some(problem_of(401, ProblemKind::Unauthorized, ""@))
    } else if !has_tenant {
        Some(problem_of(400, ProblemKind::Validation, "Failed to parse request body"@))
    } else {
        None
    }
}

/// Checks a request to add or delete a role or a policy.
pub fn check_admin_request(readable: bool, has_session: bool, has_tenant: bool) -> (r: Result<
    (),
    Problem,
>)
    ensures
        r is Ok <==> request_fault(readable, has_session, has_tenant) is None,
        r matches Err(p) ==> request_fault(readable, has_session, has_tenant) == Some(p@),
{
    if !readable {
        return Err(problem(400, ProblemKind::Validation, "Failed to parse request body"));
    }
    if !has_session {
        return Err(problem(401, ProblemKind::Unauthorized, ""));
    }
    if !has_tenant {
        return Err(problem(400, ProblemKind::Validation, "Failed to parse request body"));
    }
    Ok(())
}

/// The report of a refused administrative operation.
pub open spec fn reported(e: RoleFaultView) -> ProblemView {
    match e {
        RoleFaultView::Admin(AdminErrorView::Forbidden) => problem_of(
            403,
            ProblemKind::Forbidden,
            admin_error_text(AdminErrorView::Forbidden),
        ),
        RoleFaultView::Admin(AdminErrorView::Conflict(m)) => problem_of(
            409,
            ProblemKind::Conflict,
            m,
        ),
        RoleFaultView::Invalid(m) => problem_of(400, ProblemKind::Validation, m),
    }
}

/// The report of a refused administrative operation.
pub fn render_admin_error(e: &RoleFault) -> (r: Problem)
    ensures
        r@ == reported(e@),
{
    match e {
        RoleFault::Admin(a) => match a {
            AdminError::Forbidden => problem(
                403,
                ProblemKind::Forbidden,
                "role level is not below the caller's effective level",
            ),
            AdminError::Conflict(m) => problem(409, ProblemKind::Conflict, m.as_str()),
        },
        RoleFault::Invalid(m) => problem(400, ProblemKind::Validation, m.as_str()),
    }
}

/// A role that a session creates is born strictly below its creator, is not
/// built in, and has no built-in name.
pub proof fn law_created_role_is_below_its_creator(
    data: JwtData,
    name: Seq<char>,
    level: i64,
    exists_already: bool,
    table: Seq<Role>,
)
    requires
        creation(Caller::Jwt(data), name, level, exists_already, table) is Ok,
    ensures
        builtin_level_of(name) is None,
        !exists_already,
        0 <= level < caller_level(Caller::Jwt(data), table)->0,
        creation(Caller::Jwt(data), name, level, exists_already, table) == Ok::<
            RoleCreation,
            RoleFaultView,
        >(RoleCreation::Create { level, builtin: false }),
{
}

proof fn lemma_highest_bounded(names: Seq<Seq<char>>, table: Seq<Role>, bound: i64)
    requires
        forall|i: int| 0 <= i < table.len() ==> (#[trigger] table[i]).level <= bound,
    ensures
        highest(names, table) matches Some(l) ==> l <= bound,
    decreases names.len(),
{
    if names.len() > 0 {
        lemma_highest_bounded(names.drop_last(), table, bound);
        lemma_level_bounded(table, names.last(), bound);
    }
}

proof fn lemma_level_bounded(table: Seq<Role>, name: Seq<char>, bound: i64)
    requires
        forall|i: int| 0 <= i < table.len() ==> (#[trigger] table[i]).level <= bound,
    ensures
        level_in(table, name) matches Some(l) ==> l <= bound,
    decreases table.len(),
{
    if table.len() > 0 {
        assert forall|i: int| 0 <= i < table.skip(1).len() implies (
        #[trigger] table.skip(1)[i]).level <= bound by {
            assert(table.skip(1)[i] == table[i + 1]);
        }
        lemma_level_bounded(table.skip(1), name, bound);
    }
}

/// No session reaches the top of the ladder: where no role stands above the
/// built-in top, no session may administer a role at the top, nor a user who
/// holds one, nor create one.
pub proof fn law_the_top_is_out_of_reach(data: JwtData, table: Seq<Role>, name: Seq<char>)
    requires
        forall|i: int| 0 <= i < table.len() ==> (#[trigger] table[i]).level <= 100,
    ensures
        !outranks(caller_level(Caller::Jwt(data), table), 100),
        !may_administer(Caller::Jwt(data), table, Some(100)),
        creation(Caller::Jwt(data), name, 100, false, table) is Err,
{
    lemma_highest_bounded(texts(data.roles@), table, 100);
}

/// A session may administer nobody who holds its own highest level: peers are
/// out of reach, and so is oneself.
pub proof fn law_peers_are_out_of_reach(data: JwtData, table: Seq<Role>)
    ensures
        caller_level(Caller::Jwt(data), table) matches Some(l) ==> !may_administer(
            Caller::Jwt(data),
            table,
            Some(l),
        ),
{
}

/// A session none of whose roles is known may administer nothing and nobody.
pub proof fn law_unknown_roles_give_nothing(
    data: JwtData,
    table: Seq<Role>,
    level: i64,
    target: Option<i64>,
)
    requires
        caller_level(Caller::Jwt(data), table) is None,
    ensures
        !outranks(caller_level(Caller::Jwt(data), table), level),
        !may_administer(Caller::Jwt(data), table, target),
{
}

} // verus!
