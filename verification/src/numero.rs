//! Reconocimiento de los textos que `str::parse::<f64>` acepta.
//!
//! La documentación de `FromStr` para `f64` da la gramática de los textos
//! aceptados (tras pasarlos a minúsculas):
//!
//! ```text
//! Float  ::= Sign? ( 'inf' | 'infinity' | 'nan' | Number )
//! Number ::= ( Digit+ | Digit+ '.' Digit* | Digit* '.' Digit+ ) Exp?
//! Exp    ::= 'e' Sign? Digit+
//! Sign   ::= [+-]
//! Digit  ::= [0-9]
//! ```
//!
//! Aquí se reconoce ese lenguaje sin calcular el valor del número.
use vstd::prelude::*;
use crate::texto::{caracteres, es_espacio, ley_recortado_sin_bordes, recortado};

verus! {

pub open spec fn es_digito(c: char) -> bool {
    '0' <= c <= '9'
}

pub open spec fn es_signo(c: char) -> bool {
    c == '+' || c == '-'
}

/// `c` es la letra minúscula ASCII `m` o su mayúscula.
pub open spec fn es_letra(c: char, m: char) -> bool {
    c == m || (c as u32) + 32 == (m as u32)
}

/// `s` sin su signo inicial, si lo tiene.
pub open spec fn sin_signo(s: Seq<char>) -> Seq<char> {
    if s.len() > 0 && es_signo(s[0]) {
        s.drop_first()
    } else {
        s
    }
}

/// `s` es la palabra `w` sin distinguir mayúsculas.
pub open spec fn es_palabra(s: Seq<char>, w: Seq<char>) -> bool {
    &&& s.len() == w.len()
    &&& forall|i: int| 0 <= i < s.len() ==> es_letra(#[trigger] s[i], w[i])
}

/// Cuántos dígitos hay al principio de `s`.
pub open spec fn digitos_iniciales(s: Seq<char>) -> nat
    decreases s.len(),
{
    if s.len() > 0 && es_digito(s[0]) {
        1 + digitos_iniciales(s.drop_first())
    } else {
        0
    }
}

/// Todos los caracteres de `s` son dígitos.
pub open spec fn son_digitos(s: Seq<char>) -> bool {
    forall|i: int| 0 <= i < s.len() ==> es_digito(#[trigger] s[i])
}

/// `Exp?`: vacío, o `e`, un signo opcional y al menos un dígito.
pub open spec fn es_exponente(e: Seq<char>) -> bool {
    ||| e.len() == 0
    ||| {
        &&& e.len() > 0
        &&& es_letra(e[0], 'e')
        &&& sin_signo(e.drop_first()).len() > 0
        &&& son_digitos(sin_signo(e.drop_first()))
    }
}

/// La parte de `Number` antes del exponente: `Digit+`, o un punto con
/// dígitos a sus dos lados y al menos un dígito en total.
pub open spec fn es_mantisa(m: Seq<char>) -> bool {
    ||| m.len() > 0 && son_digitos(m)
    ||| exists|p: int|
        {
            &&& 0 <= p < m.len()
            &&& #[trigger] m[p] == '.'
            &&& son_digitos(m.take(p))
            &&& son_digitos(m.skip(p + 1))
            &&& (p > 0 || p + 1 < m.len())
        }
}

/// `Number`: una mantisa seguida de un exponente opcional.
pub open spec fn es_numero(t: Seq<char>) -> bool {
    exists|k: int| 0 <= k <= t.len() && es_mantisa(#[trigger] t.take(k)) && es_exponente(t.skip(k))
}

/// `Number` leído de izquierda a derecha: todos los dígitos iniciales, un
/// punto opcional con todos los dígitos que le siguen, y lo que queda ha de
/// ser un exponente. Es el mismo lenguaje que `es_numero`
/// (`lectura_voraz_es_numero`).
pub open spec fn lectura_voraz(t: Seq<char>) -> bool {
    let a = digitos_iniciales(t);
    let r = t.skip(a as int);
    if r.len() > 0 && r[0] == '.' {
        let f = r.drop_first();
        let b = digitos_iniciales(f);
        (a > 0 || b > 0) && es_exponente(f.skip(b as int))
    } else {
        a > 0 && es_exponente(r)
    }
}

/// `Float`: el lenguaje que `str::parse::<f64>` acepta.
pub open spec fn es_flotante(s: Seq<char>) -> bool {
    let t = sin_signo(s);
    ||| es_palabra(t, seq!['i', 'n', 'f'])
    ||| es_palabra(t, seq!['i', 'n', 'f', 'i', 'n', 'i', 't', 'y'])
    ||| es_palabra(t, seq!['n', 'a', 'n'])
    ||| es_numero(t)
}

fn digito(c: char) -> (r: bool)
    ensures
        r == es_digito(c),
{
    '0' <= c && c <= '9'
}

fn signo(c: char) -> (r: bool)
    ensures
        r == es_signo(c),
{
    c == '+' || c == '-'
}

fn letra(c: char, m: char) -> (r: bool)
    ensures
        r == es_letra(c, m),
{
    c == m || (c as u32) + 32 == (m as u32)
}

/// El primer índice desde `desde` que no es un dígito.
fn fin_de_digitos(v: &Vec<char>, desde: usize) -> (fin: usize)
    requires
        desde <= v@.len(),
    ensures
        desde <= fin <= v@.len(),
        fin - desde == digitos_iniciales(v@.skip(desde as int)),
{
    let mut i = desde;
    while i < v.len() && digito(v[i])
        invariant
            desde <= i <= v@.len(),
            digitos_iniciales(v@.skip(desde as int)) == (i - desde) + digitos_iniciales(
                v@.skip(i as int),
            ),
        decreases v@.len() - i,
    {
        assert(v@.skip(i as int).drop_first() =~= v@.skip(i + 1));
        i = i + 1;
    }
    i
}

/// Si `s[desde..]` empieza con un signo, el índice que le sigue.
fn tras_signo(v: &Vec<char>, desde: usize) -> (r: usize)
    requires
        desde <= v@.len(),
    ensures
        desde <= r <= v@.len(),
        v@.skip(r as int) == sin_signo(v@.skip(desde as int)),
{
    if desde < v.len() && signo(v[desde]) {
        assert(v@.skip(desde as int).drop_first() =~= v@.skip(desde + 1));
        desde + 1
    } else {
        desde
    }
}

/// `v[desde..]` es la palabra `w` sin distinguir mayúsculas.
fn palabra(v: &Vec<char>, desde: usize, w: &[char]) -> (r: bool)
    requires
        desde <= v@.len(),
    ensures
        r == es_palabra(v@.skip(desde as int), w@),
{
    if v.len() - desde != w.len() {
        return false;
    }
    let n = v.len();
    let mut k: usize = 0;
    while k < w.len()
        invariant
            n == v@.len(),
            desde + w@.len() == n,
            desde <= v@.len(),
            0 <= k <= w@.len(),
            forall|i: int| 0 <= i < k ==> es_letra(#[trigger] v@.skip(desde as int)[i], w@[i]),
        decreases w@.len() - k,
    {
        if !letra(v[desde + k], w[k]) {
            assert(v@.skip(desde as int)[k as int] == v@[desde + k]);
            return false;
        }
        k = k + 1;
    }
    true
}

/// `v[desde..]` es un exponente válido o está vacío.
fn exponente(v: &Vec<char>, desde: usize) -> (r: bool)
    requires
        desde <= v@.len(),
    ensures
        r == es_exponente(v@.skip(desde as int)),
{
    if desde == v.len() {
        return true;
    }
    if !letra(v[desde], 'e') {
        return false;
    }
    assert(v@.skip(desde as int).drop_first() =~= v@.skip(desde + 1));
    let d = tras_signo(v, desde + 1);
    let f = fin_de_digitos(v, d);
    proof {
        digitos_y_son_digitos(v@.skip(d as int));
    }
    d < v.len() && f == v.len()
}

/// `v[desde..]` es un `Number` de la gramática.
fn numero(v: &Vec<char>, desde: usize) -> (r: bool)
    requires
        desde <= v@.len(),
    ensures
        r == lectura_voraz(v@.skip(desde as int)),
{
    let ghost t = v@.skip(desde as int);
    let a = fin_de_digitos(v, desde);
    assert(t.skip(a - desde) =~= v@.skip(a as int));
    if a < v.len() && v[a] == '.' {
        assert(t.skip(a - desde).drop_first() =~= v@.skip(a + 1));
        let b = fin_de_digitos(v, a + 1);
        assert(v@.skip(a + 1).skip(b - (a + 1)) =~= v@.skip(b as int));
        (a > desde || b > a + 1) && exponente(v, b)
    } else {
        a > desde && exponente(v, a)
    }
}

/// Dice si `str::parse::<f64>` acepta `s`.
pub fn es_numero_f64(s: &str) -> (r: bool)
    ensures
        r == es_flotante(s@),
        s@.len() > 0 && (forall|i: int| 0 <= i < s@.len() ==> '0' <= #[trigger] s@[i] <= '9')
            ==> r,
{
    proof {
        if s@.len() > 0 && (forall|i: int| 0 <= i < s@.len() ==> '0' <= #[trigger] s@[i] <= '9') {
            ley_decimales_son_flotantes(s@, s@.len() as int);
        }
    }
    let v = caracteres(s);
    assert(v@.skip(0) =~= v@);
    let t = tras_signo(&v, 0);
    let inf: [char; 3] = ['i', 'n', 'f'];
    let infinity: [char; 8] = ['i', 'n', 'f', 'i', 'n', 'i', 't', 'y'];
    let nan: [char; 3] = ['n', 'a', 'n'];
    assert(inf@ =~= seq!['i', 'n', 'f']);
    assert(infinity@ =~= seq!['i', 'n', 'f', 'i', 'n', 'i', 't', 'y']);
    assert(nan@ =~= seq!['n', 'a', 'n']);
    proof {
        lectura_voraz_es_numero(v@.skip(t as int));
    }
    palabra(&v, t, &inf) || palabra(&v, t, &infinity) || palabra(&v, t, &nan) || numero(&v, t)
}

/// Los primeros `digitos_iniciales(s)` caracteres de `s` son dígitos.
proof fn forma_digitos_iniciales(s: Seq<char>)
    ensures
        digitos_iniciales(s) <= s.len(),
        forall|k: int| 0 <= k < digitos_iniciales(s) ==> es_digito(#[trigger] s[k]),
    decreases s.len(),
{
    if s.len() > 0 && es_digito(s[0]) {
        forma_digitos_iniciales(s.drop_first());
        assert forall|k: int| 0 <= k < digitos_iniciales(s) implies es_digito(#[trigger] s[k]) by {
            if k > 0 {
                assert(s[k] == s.drop_first()[k - 1]);
            }
        }
    }
}

/// Un exponente que no está vacío termina con un dígito.
proof fn exponente_termina_en_digito(e: Seq<char>)
    requires
        es_exponente(e),
        e.len() > 0,
    ensures
        es_digito(e.last()),
{
    let g = sin_signo(e.drop_first());
    assert(g.last() == e.last());
    assert(es_digito(g[g.len() - 1]));
}

/// Un `Number` empieza con un dígito o un punto y termina con un dígito o
/// un punto.
proof fn bordes_de_numero(t: Seq<char>)
    requires
        lectura_voraz(t),
    ensures
        t.len() > 0,
        es_digito(t[0]) || t[0] == '.',
        es_digito(t.last()) || t.last() == '.',
{
    let a = digitos_iniciales(t);
    forma_digitos_iniciales(t);
    let r = t.skip(a as int);
    if r.len() > 0 && r[0] == '.' {
        let f = r.drop_first();
        let b = digitos_iniciales(f);
        forma_digitos_iniciales(f);
        let e = f.skip(b as int);
        assert(r[0] == t[a as int]);
        if e.len() > 0 {
            exponente_termina_en_digito(e);
            assert(e.last() == t.last());
        } else if b > 0 {
            assert(f[b - 1] == t.last());
        } else {
            assert(t.last() == r[0]);
        }
    } else {
        if r.len() > 0 {
            exponente_termina_en_digito(r);
            assert(r.last() == t.last());
        }
    }
}

/// Todo texto que `f64` acepta empieza y termina sin espacios en blanco,
/// así que recortarlo no lo cambia: la tarifa que se guarda tal como llegó
/// ya está recortada.
pub proof fn ley_flotante_sin_espacios(s: Seq<char>)
    requires
        es_flotante(s),
    ensures
        s.len() > 0,
        !es_espacio(s[0]),
        !es_espacio(s.last()),
        recortado(s) == s,
{
    let t = sin_signo(s);
    lectura_voraz_es_numero(t);
    if es_numero(t) {
        bordes_de_numero(t);
    } else {
        assert(t.len() > 0);
    }
    assert(t.last() == s.last());
    if !(s.len() > 0 && es_signo(s[0])) {
        assert(t[0] == s[0]);
    }
    ley_recortado_sin_bordes(s);
}

/// Si los `k` primeros caracteres son dígitos y el siguiente no lo es (o no
/// hay más), hay exactamente `k` dígitos iniciales.
proof fn digitos_exactos(s: Seq<char>, k: int)
    requires
        0 <= k <= s.len(),
        forall|i: int| 0 <= i < k ==> es_digito(#[trigger] s[i]),
        k == s.len() || !es_digito(s[k]),
    ensures
        digitos_iniciales(s) == k,
    decreases k,
{
    if k > 0 {
        let d = s.drop_first();
        assert forall|i: int| 0 <= i < k - 1 implies es_digito(#[trigger] d[i]) by {
            assert(d[i] == s[i + 1]);
        }
        if k < s.len() {
            assert(d[k - 1] == s[k]);
        }
        digitos_exactos(d, k - 1);
    }
}

/// `s` es todo dígitos justo cuando sus dígitos iniciales lo cubren.
proof fn digitos_y_son_digitos(s: Seq<char>)
    ensures
        son_digitos(s) <==> digitos_iniciales(s) == s.len(),
{
    forma_digitos_iniciales(s);
    if son_digitos(s) {
        digitos_exactos(s, s.len() as int);
    }
}

/// La lectura de izquierda a derecha reconoce el lenguaje de `Number`.
proof fn lectura_voraz_es_numero(t: Seq<char>)
    ensures
        lectura_voraz(t) <==> es_numero(t),
{
    let a = digitos_iniciales(t) as int;
    forma_digitos_iniciales(t);
    let r = t.skip(a);
    if lectura_voraz(t) {
        if r.len() > 0 && r[0] == '.' {
            let f = r.drop_first();
            let b = digitos_iniciales(f) as int;
            forma_digitos_iniciales(f);
            let k = a + 1 + b;
            let m = t.take(k);
            assert(m[a] == '.');
            assert(m.take(a) =~= t.take(a));
            assert(son_digitos(m.take(a)));
            assert(m.skip(a + 1) =~= f.take(b));
            assert(son_digitos(m.skip(a + 1)));
            assert(es_mantisa(m));
            assert(t.skip(k) =~= f.skip(b));
        } else {
            let m = t.take(a);
            assert(son_digitos(m));
            assert(es_mantisa(m));
        }
    }
    if es_numero(t) {
        let k = choose|k: int|
            0 <= k <= t.len() && es_mantisa(#[trigger] t.take(k)) && es_exponente(t.skip(k));
        let m = t.take(k);
        let e = t.skip(k);
        // Tras la mantisa viene el final o una `e`, que no es un dígito ni un
        // punto.
        assert(k < t.len() ==> t[k] == e[0]);
        if m.len() > 0 && son_digitos(m) {
            assert forall|i: int| 0 <= i < k implies es_digito(#[trigger] t[i]) by {
                assert(t[i] == m[i]);
            }
            digitos_exactos(t, k);
            assert(r =~= e);
        } else {
            let p = choose|p: int|
                {
                    &&& 0 <= p < m.len()
                    &&& #[trigger] m[p] == '.'
                    &&& son_digitos(m.take(p))
                    &&& son_digitos(m.skip(p + 1))
                    &&& (p > 0 || p + 1 < m.len())
                };
            assert forall|i: int| 0 <= i < p implies es_digito(#[trigger] t[i]) by {
                assert(t[i] == m.take(p)[i]);
            }
            assert(t[p] == m[p]);
            digitos_exactos(t, p);
            assert(a == p);
            assert(r[0] == t[p]);
            let f = r.drop_first();
            assert(f =~= t.skip(p + 1));
            assert forall|i: int| 0 <= i < k - p - 1 implies es_digito(#[trigger] f[i]) by {
                assert(f[i] == m.skip(p + 1)[i]);
            }
            if k - p - 1 < f.len() {
                assert(f[k - p - 1] == t[k]);
            }
            digitos_exactos(f, k - p - 1);
            assert(f.skip(k - p - 1) =~= e);
        }
    }
}

/// Todo texto de cifras decimales `0`..`9`, con a lo más un punto que no
/// vaya al principio, es un número que `f64` lee, con o sin signo delante:
/// por ejemplo `"9"`, `"950"`, `"9.50"` o `"-12."`. `p` es la posición del
/// punto, o la longitud del texto si no lo hay.
pub proof fn ley_decimales_son_flotantes(s: Seq<char>, p: int)
    requires
        0 < p <= s.len(),
        forall|i: int| 0 <= i < s.len() && i != p ==> '0' <= #[trigger] s[i] <= '9',
        p < s.len() ==> s[p] == '.',
    ensures
        es_flotante(s),
        es_flotante(seq!['+'] + s),
        es_flotante(seq!['-'] + s),
{
    assert(sin_signo(s) == s);
    assert(s.take(s.len() as int) =~= s);
    assert(s.skip(s.len() as int).len() == 0);
    if p == s.len() {
        assert(son_digitos(s));
    } else {
        assert(son_digitos(s.take(p)));
        assert forall|i: int| 0 <= i < s.skip(p + 1).len() implies es_digito(
            #[trigger] s.skip(p + 1)[i],
        ) by {
            assert(s.skip(p + 1)[i] == s[p + 1 + i]);
        }
        assert(s.take(s.len() as int)[p] == '.');
    }
    assert(es_mantisa(s.take(s.len() as int)));
    assert(es_numero(s));
    assert((seq!['+'] + s).drop_first() =~= s);
    assert((seq!['-'] + s).drop_first() =~= s);
}

} // verus!
