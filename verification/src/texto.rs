//! Texto: caracteres de una cadena y recorte de los espacios en blanco de
//! sus extremos, como lo hace `str::trim`.
use vstd::prelude::*;
use vstd::string::StrSliceExecFns;

verus! {

broadcast use vstd::string::group_string_axioms;

/// Los caracteres con la propiedad Unicode `White_Space`, que son los que
/// `char::is_whitespace` reconoce.
pub open spec fn es_espacio(c: char) -> bool {
    let n = c as u32;
    ||| 0x09 <= n <= 0x0D
    ||| n == 0x20
    ||| n == 0x85
    ||| n == 0xA0
    ||| n == 0x1680
    ||| 0x2000 <= n <= 0x200A
    ||| n == 0x2028
    ||| n == 0x2029
    ||| n == 0x202F
    ||| n == 0x205F
    ||| n == 0x3000
}

/// `s` sin los espacios en blanco del principio.
pub open spec fn sin_espacios_iniciales(s: Seq<char>) -> Seq<char>
    decreases s.len(),
{
    if s.len() > 0 && es_espacio(s[0]) {
        sin_espacios_iniciales(s.drop_first())
    } else {
        s
    }
}

/// `s` sin los espacios en blanco del final.
pub open spec fn sin_espacios_finales(s: Seq<char>) -> Seq<char>
    decreases s.len(),
{
    if s.len() > 0 && es_espacio(s.last()) {
        sin_espacios_finales(s.drop_last())
    } else {
        s
    }
}

/// `s` sin los espacios en blanco de sus dos extremos.
pub open spec fn recortado(s: Seq<char>) -> Seq<char> {
    sin_espacios_finales(sin_espacios_iniciales(s))
}

/// Dice si `c` es un espacio en blanco.
pub fn espacio(c: char) -> (r: bool)
    ensures
        r == es_espacio(c),
{
    let n = c as u32;
    (0x09 <= n && n <= 0x0D) || n == 0x20 || n == 0x85 || n == 0xA0 || n == 0x1680 || (0x2000
        <= n && n <= 0x200A) || n == 0x2028 || n == 0x2029 || n == 0x202F || n == 0x205F || n
        == 0x3000
}

/// Los caracteres de `s`, en orden.
pub fn caracteres(s: &str) -> (v: Vec<char>)
    ensures
        v@ == s@,
{
    let mut v: Vec<char> = Vec::new();
    for c in it: s.chars()
        invariant
            v@ == it.seq().take(it.index() as int),
    {
        v.push(c);
    }
    v
}

/// Quitar espacios del principio de `s[i..n]` es quitarlos de `s[i + 1..n]`
/// cuando `s[i]` es un espacio.
proof fn paso_inicial(s: Seq<char>, i: int, n: int)
    requires
        0 <= i < n <= s.len(),
        es_espacio(s[i]),
    ensures
        sin_espacios_iniciales(s.subrange(i, n)) == sin_espacios_iniciales(s.subrange(i + 1, n)),
{
    assert(s.subrange(i, n).drop_first() =~= s.subrange(i + 1, n));
}

/// Quitar espacios del final de `s[i..j]` es quitarlos de `s[i..j - 1]`
/// cuando `s[j - 1]` es un espacio.
proof fn paso_final(s: Seq<char>, i: int, j: int)
    requires
        0 <= i < j <= s.len(),
        es_espacio(s[j - 1]),
    ensures
        sin_espacios_finales(s.subrange(i, j)) == sin_espacios_finales(s.subrange(i, j - 1)),
{
    assert(s.subrange(i, j).drop_last() =~= s.subrange(i, j - 1));
}

/// `s` sin los espacios en blanco de sus extremos; lo que `str::trim`
/// devuelve.
pub fn recortar(s: &str) -> (r: String)
    ensures
        r@ == recortado(s@),
{
    let v = caracteres(s);
    let n = v.len();
    let mut i: usize = 0;
    assert(v@.subrange(0, n as int) =~= v@);
    while i < n && espacio(v[i])
        invariant
            0 <= i <= n == v@.len(),
            sin_espacios_iniciales(v@) == sin_espacios_iniciales(v@.subrange(i as int, n as int)),
        decreases n - i,
    {
        proof {
            paso_inicial(v@, i as int, n as int);
        }
        i = i + 1;
    }
    assert(sin_espacios_iniciales(v@.subrange(i as int, n as int)) == v@.subrange(
        i as int,
        n as int,
    ));
    let mut j: usize = n;
    while j > i && espacio(v[j - 1])
        invariant
            0 <= i <= j <= n == v@.len(),
            sin_espacios_iniciales(v@) == v@.subrange(i as int, n as int),
            recortado(v@) == sin_espacios_finales(v@.subrange(i as int, j as int)),
        decreases j,
    {
        proof {
            paso_final(v@, i as int, j as int);
        }
        j = j - 1;
    }
    assert(sin_espacios_finales(v@.subrange(i as int, j as int)) == v@.subrange(
        i as int,
        j as int,
    ));
    s.substring_char(i, j).to_owned()
}

/// Quitar los espacios iniciales deja un sufijo de `s`; lo quitado son
/// espacios y lo que queda no empieza con uno.
proof fn forma_sin_espacios_iniciales(s: Seq<char>) -> (i: int)
    ensures
        0 <= i <= s.len(),
        sin_espacios_iniciales(s) == s.subrange(i, s.len() as int),
        forall|k: int| 0 <= k < i ==> es_espacio(#[trigger] s[k]),
        i < s.len() ==> !es_espacio(s[i]),
    decreases s.len(),
{
    if s.len() > 0 && es_espacio(s[0]) {
        let j = forma_sin_espacios_iniciales(s.drop_first());
        assert(s.drop_first().subrange(j, s.drop_first().len() as int) =~= s.subrange(
            j + 1,
            s.len() as int,
        ));
        assert forall|k: int| 0 <= k < j + 1 implies es_espacio(#[trigger] s[k]) by {
            if k > 0 {
                assert(s[k] == s.drop_first()[k - 1]);
            }
        }
        j + 1
    } else {
        assert(s.subrange(0, s.len() as int) =~= s);
        0
    }
}

/// Quitar los espacios finales deja un prefijo de `s`; lo quitado son
/// espacios y lo que queda no termina con uno.
proof fn forma_sin_espacios_finales(s: Seq<char>) -> (j: int)
    ensures
        0 <= j <= s.len(),
        sin_espacios_finales(s) == s.subrange(0, j),
        forall|k: int| j <= k < s.len() ==> es_espacio(#[trigger] s[k]),
        j > 0 ==> !es_espacio(s[j - 1]),
    decreases s.len(),
{
    if s.len() > 0 && es_espacio(s.last()) {
        let j = forma_sin_espacios_finales(s.drop_last());
        assert(s.drop_last().subrange(0, j) =~= s.subrange(0, j));
        assert forall|k: int| j <= k < s.len() implies es_espacio(#[trigger] s[k]) by {
            if k < s.len() - 1 {
                assert(s[k] == s.drop_last()[k]);
            }
        }
        j
    } else {
        assert(s.subrange(0, s.len() as int) =~= s);
        s.len() as int
    }
}

/// Un texto que no empieza ni termina con espacios en blanco queda igual al
/// recortarlo.
pub proof fn ley_recortado_sin_bordes(s: Seq<char>)
    requires
        s.len() > 0 ==> !es_espacio(s[0]) && !es_espacio(s.last()),
    ensures
        recortado(s) == s,
{
}

/// Lo que queda al recortar es un tramo seguido de `s`, y todo lo que se
/// quita, por delante y por detrás, son espacios en blanco.
pub proof fn ley_recortado_es_tramo(s: Seq<char>)
    ensures
        exists|i: int, j: int|
            {
                &&& 0 <= i <= j <= s.len()
                &&& recortado(s) == s.subrange(i, j)
                &&& forall|k: int| 0 <= k < i ==> es_espacio(#[trigger] s[k])
                &&& forall|k: int| j <= k < s.len() ==> es_espacio(#[trigger] s[k])
            },
{
    let i = forma_sin_espacios_iniciales(s);
    let s1 = s.subrange(i, s.len() as int);
    let j = forma_sin_espacios_finales(s1);
    assert(s1.subrange(0, j) =~= s.subrange(i, i + j));
    assert forall|k: int| i + j <= k < s.len() implies es_espacio(#[trigger] s[k]) by {
        assert(s[k] == s1[k - i]);
    }
}

/// Lo recortado no empieza ni termina con un espacio en blanco.
pub proof fn ley_recortado_sin_espacios_en_los_bordes(s: Seq<char>)
    ensures
        recortado(s).len() > 0 ==> !es_espacio(recortado(s)[0]) && !es_espacio(
            recortado(s).last(),
        ),
{
    let i = forma_sin_espacios_iniciales(s);
    let s1 = s.subrange(i, s.len() as int);
    let j = forma_sin_espacios_finales(s1);
    if j > 0 {
        assert(recortado(s)[0] == s1[0]);
        assert(recortado(s).last() == s1[j - 1]);
    }
}

/// Recortar dos veces es recortar una.
pub proof fn ley_recortado_idempotente(s: Seq<char>)
    ensures
        recortado(recortado(s)) == recortado(s),
{
    ley_recortado_sin_espacios_en_los_bordes(s);
    ley_recortado_sin_bordes(recortado(s));
}

} // verus!
