//! The permutation of width 3 over the BN254 scalar field: S-box degree 5,
//! 8 external and 56 internal rounds.

use crate::field::{all_wf, element, modulus, values, Fq};
use crate::poseidon2::bn254::place_block;
use crate::poseidon2::model::{diagonal_fits_width, permute, Parameters};
use crate::poseidon2::perm::{valid_config, Poseidon2Permutation};
use vstd::prelude::*;

verus! {

/// The diagonal of the internal matrix, each entry less one.
pub open spec fn diag_m1() -> Seq<nat> {
    seq![
        1nat,
        1nat,
        2nat,
    ]
}

/// The constants of external round 0.
pub open spec fn rc_external_0() -> Seq<nat> {
    seq![
        13128406282895484157369354038809433636203389051939936481821261911791933663254nat,
        18931653859213243425446645781588512487838213266321401679594943842133071369744nat,
        14100663835952519432830313936592734340076294692040144715814219945570907513297nat,
    ]
}

/// The constants of external round 1.
pub open spec fn rc_external_1() -> Seq<nat> {
    seq![
        4829113795940962171577509772302063766582957624337039572002553144762883322341nat,
        15524196826242151316602020382811195434692947787822797536837043495207890599720nat,
        11824742889827005569732308046012743315382715056680481843559537371456931944245nat,
    ]
}

/// The constants of external round 2.
pub open spec fn rc_external_2() -> Seq<nat> {
    seq![
        15824369292130948538570881538463827283727388637222356799784648390667783881850nat,
        7395652367440825515524159918310823124942438011035473842936180620057265532493nat,
        1241351203963627868835881804826107927839874261162687401459390240620885410254nat,
    ]
}

/// The constants of external round 3.
pub open spec fn rc_external_3() -> Seq<nat> {
    seq![
        6688265362431458560657026053775250595854204120757399493099812773970419156132nat,
        18628865421786169197184064906533816626840829027307965436801990532221681661310nat,
        17770079997659052348824924629777474963416629061770380464722096481670103655806nat,
    ]
}

/// The constants of external round 4.
pub open spec fn rc_external_4() -> Seq<nat> {
    seq![
        12123026335854515584932892161148559902027319284544852339906677442670161590992nat,
        11747143856113197599032240626240804787576886917202313931914972592787570603429nat,
        12689083329367969619896630238881490862330991685178863399139986099061967775891nat,
    ]
}

/// The constants of external round 5.
pub open spec fn rc_external_5() -> Seq<nat> {
    seq![
        9363616378570856727297258914956380343356030981401312041884116403700849212733nat,
        13238291046435061349401827110993774315432323243867917623501520885175217584478nat,
        13857006478672530359037215101120381968370236111775805219419707798416454682620nat,
    ]
}

/// The constants of external round 6.
pub open spec fn rc_external_6() -> Seq<nat> {
    seq![
        2022752961549084842139747691238383165524359342011064407942599644003308437489nat,
        11377043765620686524844863869245961003946340433252666374730228559486855986878nat,
        9107028336454933966239128359918274121166034584181733998485105905495346200934nat,
    ]
}

/// The constants of external round 7.
pub open spec fn rc_external_7() -> Seq<nat> {
    seq![
        900063247840342897532382686223939136593244983486268682637380837456165317070nat,
        11261302954518146885624063833699323298803404236535464228351677636819579513431nat,
        7126990412157463341897179572979760225771626877677162088926546182321369054630nat,
    ]
}

/// The constants of the external rounds, one vector for each round.
pub open spec fn rc_external() -> Seq<Seq<nat>> {
    seq![
        rc_external_0(),
        rc_external_1(),
        rc_external_2(),
        rc_external_3(),
        rc_external_4(),
        rc_external_5(),
        rc_external_6(),
        rc_external_7(),
    ]
}

/// The constants of the internal rounds 0 to 7.
pub open spec fn rc_internal_0() -> Seq<nat> {
    seq![
        11811415718957691261673974625780511541635150909919309658375768251762566747317nat,
        17491388639298611159333770975992024026420968324544834879936543171716736973879nat,
        5647537972700463414111873015737673282707440513292923385601908870282442800104nat,
        13098696909140066209556423100763036393001603197583133354863092304798723388565nat,
        6951180250619279643770888203380891623788978362131976553140006882493632020745nat,
        11250251081997661635793843737498879309304455145146915350538637298238893102958nat,
        2246982048814095620312232487641427155108104073024754628893054837638848127964nat,
        18897180842973857564376958241871700087418903006311506731527228148081597475814nat,
    ]
}

/// The constants of the internal rounds 8 to 15.
pub open spec fn rc_internal_1() -> Seq<nat> {
    seq![
        11557404599711559103972421944754928847181400366333080241838467983028485750549nat,
        17156358787639157774388183034849932704703797218604790661321342987075785318260nat,
        8846001957151556825394442611430138293780354129800063716225175548340091032449nat,
        21883449834630454155761926448978525628607016008113566399646971468161186616967nat,
        11782201180140779170005707786217005381305915516114251118577530420880166417952nat,
        19574374768428302416384468550351257389078501920039012797497943057156188490399nat,
        8515987927591912252146893631936027853249294776314628553087138119917968203620nat,
        17278996890957540943430295799612663512184925495827057764219426280563743078943nat,
    ]
}

/// The constants of the internal rounds 16 to 23.
pub open spec fn rc_internal_2() -> Seq<nat> {
    seq![
        4560144125266860756441160513270281593457202308593722614013851111005532208589nat,
        18507459160700813704135500972073304101922968342745790738233104310822653821881nat,
        12853272419783978245995917302225694649366687506910892647236063701566570840428nat,
        14374895923592519298500369713759001634990764548024903321294831249025876110484nat,
        1754533789272381217541450481312878927560073411620344950409407505576538004136nat,
        20448232810715691360468548645921483318770769828465347895613479253435247065293nat,
        4203277692183102377396835282861288449527228200284576966986741905195109677387nat,
        11506339386261725202512749094297334054772084639665212079028551409689271965431nat,
    ]
}

/// The constants of the internal rounds 24 to 31.
pub open spec fn rc_internal_3() -> Seq<nat> {
    seq![
        4408799661846477128378547528471700197737434561274043409442231147309460168718nat,
        10862521404448958117187164110262290189825635328197001646848012017699995213390nat,
        7012061838863338817532836723152059636816924388921632356281537445328382279260nat,
        8337544039076735620694225144163354013921209405711398618659178986151546625400nat,
        16173744372216956516796750206695252671549928142051779144629150462255079400849nat,
        19072902632067672883974143637757649536845413107085656789672471396027868707732nat,
        3487852254355424154670010750480228751987308757772575371606146474985412561707nat,
        17727517395793273304860106667199855253218123164763798377815886217088561516989nat,
    ]
}

/// The constants of the internal rounds 32 to 39.
pub open spec fn rc_internal_4() -> Seq<nat> {
    seq![
        13280131383170382695839570176732265848909891244754629477752800360224963964534nat,
        21504421972374418324171209120165696620934505501591484695447432472073975792776nat,
        13753604424945682926871108642602624411461374991709441590662260371815673344981nat,
        8053178768600673579416591772204841415225213226540397062676127402210384682315nat,
        15101558583452488762759591936595783545455044970328380152280373697190919758012nat,
        6286700389345423344101403023711121482167900236544298155098199100234816571786nat,
        19368755554193272721035317233504719593365546521121074341670771231332472422552nat,
        13306281365497267243785678269212920842854030794417306689235276460198094483575nat,
    ]
}

/// The constants of the internal rounds 40 to 47.
pub open spec fn rc_internal_5() -> Seq<nat> {
    seq![
        10121764749051640353641114693266514664967620368543293902008953934189850195966nat,
        179619165022370308972665071682395477322215797039585945216341070107573537790nat,
        14053393851645634065914179337120715807963438235922115988819572738574714471437nat,
        17345906218970918797922168310670548252023720338285437740234091480846393436478nat,
        10383068492552043678323859571562933490503408853170063884414176092784243607055nat,
        12096041499044892166554391619429604246288825927654072010011878199637889490527nat,
        6449742640166027959651492823149770763572943879017164812917305794918053034585nat,
        6551805454148805882554763665748573416514894105513920161214733482541847062214nat,
    ]
}

/// The constants of the internal rounds 48 to 55.
pub open spec fn rc_internal_6() -> Seq<nat> {
    seq![
        3651410956659878392469489270906333016569562868954890104332567650040497030813nat,
        15219053914464753937310253926447830297339787956721755285255510737973021838676nat,
        881679665678132972106931291023348167890022611850562267871389203532691753422nat,
        5006067481688857073852527145736822635357747460125905556158034280392250104971nat,
        12765332320844032254009314500332101047115754896003948733635815046365410860591nat,
        12908190215073542091623737558383307555705501651914623082354191483197810853182nat,
        1446042792715825508366007519346636771782990303010685652946852324744810237839nat,
        17414863822034645298427260856470503848317996477890518738401812766215195632841nat,
    ]
}

/// The constants of the internal rounds.
pub open spec fn rc_internal() -> Seq<nat> {
    rc_internal_0() + rc_internal_1() + rc_internal_2() + rc_internal_3() + rc_internal_4() + rc_internal_5() + rc_internal_6()
}

/// The tables of the instance.
pub open spec fn parameters() -> Parameters {
    Parameters { diag_m1: diag_m1(), rc_external: rc_external(), rc_internal: rc_internal() }
}

fn diag_table() -> (r: [Fq; 3])
    ensures
        all_wf(r@),
        values(r@) == diag_m1(),
{
    let c0 = element(0xac96341c4ffffffb, 0x36fc76959f60cd29, 0x666ea36f7879462e, 0x0e0a77c19a07df2f);
    assert(c0.wf() && c0@ == 1nat) by (nonlinear_arith)
        requires
            c0.limbs@ == seq![0xac96341c4ffffffbu64, 0x36fc76959f60cd29u64, 0x666ea36f7879462eu64, 0x0e0a77c19a07df2fu64],
    {
        reveal(modulus);
    }
    let c1 = element(0xac96341c4ffffffb, 0x36fc76959f60cd29, 0x666ea36f7879462e, 0x0e0a77c19a07df2f);
    assert(c1.wf() && c1@ == 1nat) by (nonlinear_arith)
        requires
            c1.limbs@ == seq![0xac96341c4ffffffbu64, 0x36fc76959f60cd29u64, 0x666ea36f7879462eu64, 0x0e0a77c19a07df2fu64],
    {
        reveal(modulus);
    }
    let c2 = element(0x592c68389ffffff6, 0x6df8ed2b3ec19a53, 0xccdd46def0f28c5c, 0x1c14ef83340fbe5e);
    assert(c2.wf() && c2@ == 2nat) by (nonlinear_arith)
        requires
            c2.limbs@ == seq![0x592c68389ffffff6u64, 0x6df8ed2b3ec19a53u64, 0xccdd46def0f28c5cu64, 0x1c14ef83340fbe5eu64],
    {
        reveal(modulus);
    }
    let r = [
        c0, c1, c2,
    ];
    assert(values(r@) =~= diag_m1());
    r
}

fn external_row_0() -> (r: [Fq; 3])
    ensures
        all_wf(r@),
        values(r@) == rc_external_0(),
{
    let c0 = element(0xd722b5d4ce14484c, 0x28fdf04ef431d35f, 0x0af406c6d8a909c9, 0x2d545ba8d234efa0);
    assert(c0.wf() && c0@ == 13128406282895484157369354038809433636203389051939936481821261911791933663254nat) by (nonlinear_arith)
        requires
            c0.limbs@ == seq![0xd722b5d4ce14484cu64, 0x28fdf04ef431d35fu64, 0x0af406c6d8a909c9u64, 0x2d545ba8d234efa0u64],
    {
        reveal(modulus);
    }
    let c1 = element(0x55a2a5fc348a5584, 0xd73cd95929e45265, 0x66e861c483269614, 0x040e6777b2b473e0);
    assert(c1.wf() && c1@ == 18931653859213243425446645781588512487838213266321401679594943842133071369744nat) by (nonlinear_arith)
        requires
            c1.limbs@ == seq![0x55a2a5fc348a5584u64, 0xd73cd95929e45265u64, 0x66e861c483269614u64, 0x040e6777b2b473e0u64],
    {
        reveal(modulus);
    }
    let c2 = element(0x0a830ec1f8020b2a, 0x8197a4f899305e94, 0x3c2e69437ac4428f, 0x17eceef02f845328);
    assert(c2.wf() && c2@ == 14100663835952519432830313936592734340076294692040144715814219945570907513297nat) by (nonlinear_arith)
        requires
            c2.limbs@ == seq![0x0a830ec1f8020b2au64, 0x8197a4f899305e94u64, 0x3c2e69437ac4428fu64, 0x17eceef02f845328u64],
    {
        reveal(modulus);
    }
    let r = [
        c0, c1, c2,
    ];
    assert(values(r@) =~= rc_external_0());
    r
}

fn external_row_1() -> (r: [Fq; 3])
    ensures
        all_wf(r@),
        values(r@) == rc_external_1(),
{
    let c0 = element(0xa51d3e5bc97d6f8a, 0x054ffe26dc378def, 0xd8440cef8abe9c97, 0x005cbb47536245d6);
    assert(c0.wf() && c0@ == 4829113795940962171577509772302063766582957624337039572002553144762883322341nat) by (nonlinear_arith)
        requires
            c0.limbs@ == seq![0xa51d3e5bc97d6f8au64, 0x054ffe26dc378defu64, 0xd8440cef8abe9c97u64, 0x005cbb47536245d6u64],
    {
        reveal(modulus);
    }
    let c1 = element(0x042cdbb0e05e41ad, 0xc2bbc7d386048513, 0x24521f75749e5203, 0x2b353c0d0eb46678);
    assert(c1.wf() && c1@ == 15524196826242151316602020382811195434692947787822797536837043495207890599720nat) by (nonlinear_arith)
        requires
            c1.limbs@ == seq![0x042cdbb0e05e41adu64, 0xc2bbc7d386048513u64, 0x24521f75749e5203u64, 0x2b353c0d0eb46678u64],
    {
        reveal(modulus);
    }
    let c2 = element(0x452e08a370279600, 0x8a72c098f325f46c, 0x6c50ae68b9aa1466, 0x0485044559c97364);
    assert(c2.wf() && c2@ == 11824742889827005569732308046012743315382715056680481843559537371456931944245nat) by (nonlinear_arith)
        requires
            c2.limbs@ == seq![0x452e08a370279600u64, 0x8a72c098f325f46cu64, 0x6c50ae68b9aa1466u64, 0x0485044559c97364u64],
    {
        reveal(modulus);
    }
    let r = [
        c0, c1, c2,
    ];
    assert(values(r@) =~= rc_external_1());
    r
}

fn external_row_2() -> (r: [Fq; 3])
    ensures
        all_wf(r@),
        values(r@) == rc_external_2(),
{
    let c0 = element(0x0ad536bde225df77, 0x618246ab1b44ea62, 0x9e92bf71d6d89f5f, 0x143c32bc7134fbff);
    assert(c0.wf() && c0@ == 15824369292130948538570881538463827283727388637222356799784648390667783881850nat) by (nonlinear_arith)
        requires
            c0.limbs@ == seq![0x0ad536bde225df77u64, 0x618246ab1b44ea62u64, 0x9e92bf71d6d89f5fu64, 0x143c32bc7134fbffu64],
    {
        reveal(modulus);
    }
    let c1 = element(0xb88574faafd66bd9, 0x009eff80fe2d1c84, 0xd8e71adb450d4afa, 0x2eda25b9568f5057);
    assert(c1.wf() && c1@ == 7395652367440825515524159918310823124942438011035473842936180620057265532493nat) by (nonlinear_arith)
        requires
            c1.limbs@ == seq![0xb88574faafd66bd9u64, 0x009eff80fe2d1c84u64, 0xd8e71adb450d4afau64, 0x2eda25b9568f5057u64],
    {
        reveal(modulus);
    }
    let c2 = element(0x25725962246fe49e, 0xed9f756a0d2ac3d7, 0x3ae3c2d34ac9abe4, 0x0190cdb5e0b6b88c);
    assert(c2.wf() && c2@ == 1241351203963627868835881804826107927839874261162687401459390240620885410254nat) by (nonlinear_arith)
        requires
            c2.limbs@ == seq![0x25725962246fe49eu64, 0xed9f756a0d2ac3d7u64, 0x3ae3c2d34ac9abe4u64, 0x0190cdb5e0b6b88cu64],
    {
        reveal(modulus);
    }
    let r = [
        c0, c1, c2,
    ];
    assert(values(r@) =~= rc_external_2());
    r
}

fn external_row_3() -> (r: [Fq; 3])
    ensures
        all_wf(r@),
        values(r@) == rc_external_3(),
{
    let c0 = element(0xe7adc99750fd3fe6, 0xb747a57693fc3913, 0x249a1e43051ca986, 0x1307eb2ed23a561b);
    assert(c0.wf() && c0@ == 6688265362431458560657026053775250595854204120757399493099812773970419156132nat) by (nonlinear_arith)
        requires
            c0.limbs@ == seq![0xe7adc99750fd3fe6u64, 0xb747a57693fc3913u64, 0x249a1e43051ca986u64, 0x1307eb2ed23a561bu64],
    {
        reveal(modulus);
    }
    let c1 = element(0x9615931ff79536d3, 0x24525c947a923c33, 0x467ae014f2988ff5, 0x2c023f4762b95029);
    assert(c1.wf() && c1@ == 18628865421786169197184064906533816626840829027307965436801990532221681661310nat) by (nonlinear_arith)
        requires
            c1.limbs@ == seq![0x9615931ff79536d3u64, 0x24525c947a923c33u64, 0x467ae014f2988ff5u64, 0x2c023f4762b95029u64],
    {
        reveal(modulus);
    }
    let c2 = element(0x92d843f6e7c528e0, 0x0cc5a90ee754e747, 0x191e21b2f55f9236, 0x28f936f9d4331f4b);
    assert(c2.wf() && c2@ == 17770079997659052348824924629777474963416629061770380464722096481670103655806nat) by (nonlinear_arith)
        requires
            c2.limbs@ == seq![0x92d843f6e7c528e0u64, 0x0cc5a90ee754e747u64, 0x191e21b2f55f9236u64, 0x28f936f9d4331f4bu64],
    {
        reveal(modulus);
    }
    let r = [
        c0, c1, c2,
    ];
    assert(values(r@) =~= rc_external_3());
    r
}

fn external_row_4() -> (r: [Fq; 3])
    ensures
        all_wf(r@),
        values(r@) == rc_external_4(),
{
    let c0 = element(0x8e8db2dcae74b354, 0x18d52d0c368291c9, 0x5ec6273241ab4b08, 0x1284ed5f098eabd3);
    assert(c0.wf() && c0@ == 12123026335854515584932892161148559902027319284544852339906677442670161590992nat) by (nonlinear_arith)
        requires
            c0.limbs@ == seq![0x8e8db2dcae74b354u64, 0x18d52d0c368291c9u64, 0x5ec6273241ab4b08u64, 0x1284ed5f098eabd3u64],
    {
        reveal(modulus);
    }
    let c1 = element(0x1fbe709efc6734e0, 0x84a4299630bc8815, 0x9bf5e155b0e2c32e, 0x08e211c4f350b3ef);
    assert(c1.wf() && c1@ == 11747143856113197599032240626240804787576886917202313931914972592787570603429nat) by (nonlinear_arith)
        requires
            c1.limbs@ == seq![0x1fbe709efc6734e0u64, 0x84a4299630bc8815u64, 0x9bf5e155b0e2c32eu64, 0x08e211c4f350b3efu64],
    {
        reveal(modulus);
    }
    let c2 = element(0x9423ffa0b7c9731a, 0xa70300acead2eb93, 0x1526253741d22c44, 0x2fae94ed023f12e0);
    assert(c2.wf() && c2@ == 12689083329367969619896630238881490862330991685178863399139986099061967775891nat) by (nonlinear_arith)
        requires
            c2.limbs@ == seq![0x9423ffa0b7c9731au64, 0xa70300acead2eb93u64, 0x1526253741d22c44u64, 0x2fae94ed023f12e0u64],
    {
        reveal(modulus);
    }
    let r = [
        c0, c1, c2,
    ];
    assert(values(r@) =~= rc_external_4());
    r
}

fn external_row_5() -> (r: [Fq; 3])
    ensures
        all_wf(r@),
        values(r@) == rc_external_5(),
{
    let c0 = element(0x4b5ff60265185ab2, 0xbea20e3f0d9953e3, 0x0dfcbf8f224890c4, 0x14bccf4609c0effd);
    assert(c0.wf() && c0@ == 9363616378570856727297258914956380343356030981401312041884116403700849212733nat) by (nonlinear_arith)
        requires
            c0.limbs@ == seq![0x4b5ff60265185ab2u64, 0xbea20e3f0d9953e3u64, 0x0dfcbf8f224890c4u64, 0x14bccf4609c0effdu64],
    {
        reveal(modulus);
    }
    let c1 = element(0xe4cab4612da2e433, 0x11e05277a8d64ce1, 0xbbcaa97bc7ed715e, 0x0ecfcc925bca9fc1);
    assert(c1.wf() && c1@ == 13238291046435061349401827110993774315432323243867917623501520885175217584478nat) by (nonlinear_arith)
        requires
            c1.limbs@ == seq![0xe4cab4612da2e433u64, 0x11e05277a8d64ce1u64, 0xbbcaa97bc7ed715eu64, 0x0ecfcc925bca9fc1u64],
    {
        reveal(modulus);
    }
    let c2 = element(0xdfb8951370941941, 0x960042e3ce168be1, 0x6d54135d6cabdbbb, 0x0221b16be464a69a);
    assert(c2.wf() && c2@ == 13857006478672530359037215101120381968370236111775805219419707798416454682620nat) by (nonlinear_arith)
        requires
            c2.limbs@ == seq![0xdfb8951370941941u64, 0x960042e3ce168be1u64, 0x6d54135d6cabdbbbu64, 0x0221b16be464a69au64],
    {
        reveal(modulus);
    }
    let r = [
        c0, c1, c2,
    ];
    assert(values(r@) =~= rc_external_5());
    r
}

fn external_row_6() -> (r: [Fq; 3])
    ensures
        all_wf(r@),
        values(r@) == rc_external_6(),
{
    let c0 = element(0x3918cf0b20a0f689, 0xecd0d188622af6db, 0x4e1b574c8a26e246, 0x2d85fbe5a0d6fa59);
    assert(c0.wf() && c0@ == 2022752961549084842139747691238383165524359342011064407942599644003308437489nat) by (nonlinear_arith)
        requires
            c0.limbs@ == seq![0x3918cf0b20a0f689u64, 0xecd0d188622af6dbu64, 0x4e1b574c8a26e246u64, 0x2d85fbe5a0d6fa59u64],
    {
        reveal(modulus);
    }
    let c1 = element(0x0fc72998c5b60d86, 0x2a5351528fdc2a51, 0x7adec22b4eabd232, 0x0a08535ef111a956);
    assert(c1.wf() && c1@ == 11377043765620686524844863869245961003946340433252666374730228559486855986878nat) by (nonlinear_arith)
        requires
            c1.limbs@ == seq![0x0fc72998c5b60d86u64, 0x2a5351528fdc2a51u64, 0x7adec22b4eabd232u64, 0x0a08535ef111a956u64],
    {
        reveal(modulus);
    }
    let c2 = element(0x0df1d9e2ca492b78, 0x4a01db83a8d99ad4, 0xeb2bcb74cbf1383d, 0x2e9984824b7a3011);
    assert(c2.wf() && c2@ == 9107028336454933966239128359918274121166034584181733998485105905495346200934nat) by (nonlinear_arith)
        requires
            c2.limbs@ == seq![0x0df1d9e2ca492b78u64, 0x4a01db83a8d99ad4u64, 0xeb2bcb74cbf1383du64, 0x2e9984824b7a3011u64],
    {
        reveal(modulus);
    }
    let r = [
        c0, c1, c2,
    ];
    assert(values(r@) =~= rc_external_6());
    r
}

fn external_row_7() -> (r: [Fq; 3])
    ensures
        all_wf(r@),
        values(r@) == rc_external_7(),
{
    let c0 = element(0x267cc7a6c20b3c54, 0x619ad1e0d0e2fdca, 0x9668fc44cfe99da2, 0x15f960d8396bc175);
    assert(c0.wf() && c0@ == 900063247840342897532382686223939136593244983486268682637380837456165317070nat) by (nonlinear_arith)
        requires
            c0.limbs@ == seq![0x267cc7a6c20b3c54u64, 0x619ad1e0d0e2fdcau64, 0x9668fc44cfe99da2u64, 0x15f960d8396bc175u64],
    {
        reveal(modulus);
    }
    let c1 = element(0x17e87a80f8b105ca, 0x666e49d9fa2042ea, 0xc40330f54734c297, 0x2a656ded4524e0dc);
    assert(c1.wf() && c1@ == 11261302954518146885624063833699323298803404236535464228351677636819579513431nat) by (nonlinear_arith)
        requires
            c1.limbs@ == seq![0x17e87a80f8b105cau64, 0x666e49d9fa2042eau64, 0xc40330f54734c297u64, 0x2a656ded4524e0dcu64],
    {
        reveal(modulus);
    }
    let c2 = element(0x1a8a41ea3fa848fd, 0x68c01b2742aea9aa, 0xc5ff17a405f7acad, 0x05932f8c2731e92a);
    assert(c2.wf() && c2@ == 7126990412157463341897179572979760225771626877677162088926546182321369054630nat) by (nonlinear_arith)
        requires
            c2.limbs@ == seq![0x1a8a41ea3fa848fdu64, 0x68c01b2742aea9aau64, 0xc5ff17a405f7acadu64, 0x05932f8c2731e92au64],
    {
        reveal(modulus);
    }
    let r = [
        c0, c1, c2,
    ];
    assert(values(r@) =~= rc_external_7());
    r
}

fn internal_block_0() -> (r: [Fq; 8])
    ensures
        all_wf(r@),
        values(r@) == rc_internal_0(),
{
    let c0 = element(0x622adaa22bc0a5cf, 0xd1c5d8543b6eaf8a, 0x330f3ecad0f62457, 0x1007cfff156de150);
    assert(c0.wf() && c0@ == 11811415718957691261673974625780511541635150909919309658375768251762566747317nat) by (nonlinear_arith)
        requires
            c0.limbs@ == seq![0x622adaa22bc0a5cfu64, 0xd1c5d8543b6eaf8au64, 0x330f3ecad0f62457u64, 0x1007cfff156de150u64],
    {
        reveal(modulus);
    }
    let c1 = element(0x7fcd7a7b51a3a11a, 0xf3effc9d64057c75, 0xbc8a4ec31300cb0d, 0x30322f4f7dcad9a8);
    assert(c1.wf() && c1@ == 17491388639298611159333770975992024026420968324544834879936543171716736973879nat) by (nonlinear_arith)
        requires
            c1.limbs@ == seq![0x7fcd7a7b51a3a11au64, 0xf3effc9d64057c75u64, 0xbc8a4ec31300cb0du64, 0x30322f4f7dcad9a8u64],
    {
        reveal(modulus);
    }
    let c2 = element(0x475cd06622b141d5, 0x5d64d8cf28285fae, 0x6e095ffe4d284a15, 0x2643235c9b4cd1c2);
    assert(c2.wf() && c2@ == 5647537972700463414111873015737673282707440513292923385601908870282442800104nat) by (nonlinear_arith)
        requires
            c2.limbs@ == seq![0x475cd06622b141d5u64, 0x5d64d8cf28285faeu64, 0x6e095ffe4d284a15u64, 0x2643235c9b4cd1c2u64],
    {
        reveal(modulus);
    }
    let c3 = element(0x7c0b0359a212daf5, 0xd75ada0d5af14f5d, 0xa4345628061ee257, 0x17b7c8b84e8ae776);
    assert(c3.wf() && c3@ == 13098696909140066209556423100763036393001603197583133354863092304798723388565nat) by (nonlinear_arith)
        requires
            c3.limbs@ == seq![0x7c0b0359a212daf5u64, 0xd75ada0d5af14f5du64, 0xa4345628061ee257u64, 0x17b7c8b84e8ae776u64],
    {
        reveal(modulus);
    }
    let c4 = element(0x980c58b1742b36f2, 0xa565f2cadfe11248, 0x67ef3bea07c3028c, 0x2c28234902b5fb1a);
    assert(c4.wf() && c4@ == 6951180250619279643770888203380891623788978362131976553140006882493632020745nat) by (nonlinear_arith)
        requires
            c4.limbs@ == seq![0x980c58b1742b36f2u64, 0xa565f2cadfe11248u64, 0x67ef3bea07c3028cu64, 0x2c28234902b5fb1au64],
    {
        reveal(modulus);
    }
    let c5 = element(0xbde1186c2d096ab6, 0xe1703272efe9a103, 0xbc6f3904ba8072b1, 0x29302878a3f0234c);
    assert(c5.wf() && c5@ == 11250251081997661635793843737498879309304455145146915350538637298238893102958nat) by (nonlinear_arith)
        requires
            c5.limbs@ == seq![0xbde1186c2d096ab6u64, 0xe1703272efe9a103u64, 0xbc6f3904ba8072b1u64, 0x29302878a3f0234cu64],
    {
        reveal(modulus);
    }
    let c6 = element(0x3ee7ba77b4128e99, 0xc51c0395c6a895f6, 0xccbf96f2605cbe98, 0x1e22e2745ca3afca);
    assert(c6.wf() && c6@ == 2246982048814095620312232487641427155108104073024754628893054837638848127964nat) by (nonlinear_arith)
        requires
            c6.limbs@ == seq![0x3ee7ba77b4128e99u64, 0xc51c0395c6a895f6u64, 0xccbf96f2605cbe98u64, 0x1e22e2745ca3afcau64],
    {
        reveal(modulus);
    }
    let c7 = element(0x1d3ad6691c835661, 0xfb5f95a2a21fab6c, 0xc1659970e72c8dce, 0x295474529436cfb0);
    assert(c7.wf() && c7@ == 18897180842973857564376958241871700087418903006311506731527228148081597475814nat) by (nonlinear_arith)
        requires
            c7.limbs@ == seq![0x1d3ad6691c835661u64, 0xfb5f95a2a21fab6cu64, 0xc1659970e72c8dceu64, 0x295474529436cfb0u64],
    {
        reveal(modulus);
    }
    let r = [
        c0, c1, c2, c3, c4, c5, c6, c7,
    ];
    assert(values(r@) =~= rc_internal_0());
    r
}

fn internal_block_1() -> (r: [Fq; 8])
    ensures
        all_wf(r@),
        values(r@) == rc_internal_1(),
{
    let c0 = element(0x23328b4257f54073, 0x204e4f688af8e279, 0xa956bf6fe8162f7b, 0x2f5d17dee06b555a);
    assert(c0.wf() && c0@ == 11557404599711559103972421944754928847181400366333080241838467983028485750549nat) by (nonlinear_arith)
        requires
            c0.limbs@ == seq![0x23328b4257f54073u64, 0x204e4f688af8e279u64, 0xa956bf6fe8162f7bu64, 0x2f5d17dee06b555au64],
    {
        reveal(modulus);
    }
    let c1 = element(0x4a3ada744a172d09, 0x0c507c89be5ad794, 0x7c7f8bd5c89c352c, 0x1d2576a41f2c7644);
    assert(c1.wf() && c1@ == 17156358787639157774388183034849932704703797218604790661321342987075785318260nat) by (nonlinear_arith)
        requires
            c1.limbs@ == seq![0x4a3ada744a172d09u64, 0x0c507c89be5ad794u64, 0x7c7f8bd5c89c352cu64, 0x1d2576a41f2c7644u64],
    {
        reveal(modulus);
    }
    let c2 = element(0x9bd727e302eeb228, 0xdf6d767c8b1ea1f2, 0xca141180f54307d2, 0x2505c0d6236cad38);
    assert(c2.wf() && c2@ == 8846001957151556825394442611430138293780354129800063716225175548340091032449nat) by (nonlinear_arith)
        requires
            c2.limbs@ == seq![0x9bd727e302eeb228u64, 0xdf6d767c8b1ea1f2u64, 0xca141180f54307d2u64, 0x2505c0d6236cad38u64],
    {
        reveal(modulus);
    }
    let c3 = element(0xb1e10961954c97c6, 0x3c4f0682d3f9fef2, 0x0c80d2cf71008c30, 0x0e15691f05a18dcd);
    assert(c3.wf() && c3@ == 21883449834630454155761926448978525628607016008113566399646971468161186616967nat) by (nonlinear_arith)
        requires
            c3.limbs@ == seq![0xb1e10961954c97c6u64, 0x3c4f0682d3f9fef2u64, 0x0c80d2cf71008c30u64, 0x0e15691f05a18dcdu64],
    {
        reveal(modulus);
    }
    let c4 = element(0xeffe6ebd635f9952, 0xeb59bc51e7671c93, 0x96411255e253cbde, 0x12c2c08937fe27c9);
    assert(c4.wf() && c4@ == 11782201180140779170005707786217005381305915516114251118577530420880166417952nat) by (nonlinear_arith)
        requires
            c4.limbs@ == seq![0xeffe6ebd635f9952u64, 0xeb59bc51e7671c93u64, 0x96411255e253cbdeu64, 0x12c2c08937fe27c9u64],
    {
        reveal(modulus);
    }
    let c5 = element(0xb874c9413a1317c4, 0x16e2f4333112a9a7, 0xc706227f94375e0a, 0x17541af3ee77ed31);
    assert(c5.wf() && c5@ == 19574374768428302416384468550351257389078501920039012797497943057156188490399nat) by (nonlinear_arith)
        requires
            c5.limbs@ == seq![0xb874c9413a1317c4u64, 0x16e2f4333112a9a7u64, 0xc706227f94375e0au64, 0x17541af3ee77ed31u64],
    {
        reveal(modulus);
    }
    let c6 = element(0x1c8578d3964189af, 0x9606117dd33043f7, 0x47321da7576a465f, 0x1d221ece05653649);
    assert(c6.wf() && c6@ == 8515987927591912252146893631936027853249294776314628553087138119917968203620nat) by (nonlinear_arith)
        requires
            c6.limbs@ == seq![0x1c8578d3964189afu64, 0x9606117dd33043f7u64, 0x47321da7576a465fu64, 0x1d221ece05653649u64],
    {
        reveal(modulus);
    }
    let c7 = element(0x4fe812537544679e, 0x22c277f99fab065d, 0x559c1f97037b2a59, 0x0d335d8cb64c1dee);
    assert(c7.wf() && c7@ == 17278996890957540943430295799612663512184925495827057764219426280563743078943nat) by (nonlinear_arith)
        requires
            c7.limbs@ == seq![0x4fe812537544679eu64, 0x22c277f99fab065du64, 0x559c1f97037b2a59u64, 0x0d335d8cb64c1deeu64],
    {
        reveal(modulus);
    }
    let r = [
        c0, c1, c2, c3, c4, c5, c6, c7,
    ];
    assert(values(r@) =~= rc_internal_1());
    r
}

fn internal_block_2() -> (r: [Fq; 8])
    ensures
        all_wf(r@),
        values(r@) == rc_internal_2(),
{
    let c0 = element(0xfca74a7911772ad0, 0x7794ea0b1ae81a44, 0x8599b6205c8410db, 0x14a9bc1904fdb4e8);
    assert(c0.wf() && c0@ == 4560144125266860756441160513270281593457202308593722614013851111005532208589nat) by (nonlinear_arith)
        requires
            c0.limbs@ == seq![0xfca74a7911772ad0u64, 0x7794ea0b1ae81a44u64, 0x8599b6205c8410dbu64, 0x14a9bc1904fdb4e8u64],
    {
        reveal(modulus);
    }
    let c1 = element(0x27c775f5459458c7, 0x8328d2c0eb439f06, 0x40673f0d734180d6, 0x15277115e92859b9);
    assert(c1.wf() && c1@ == 18507459160700813704135500972073304101922968342745790738233104310822653821881nat) by (nonlinear_arith)
        requires
            c1.limbs@ == seq![0x27c775f5459458c7u64, 0x8328d2c0eb439f06u64, 0x40673f0d734180d6u64, 0x15277115e92859b9u64],
    {
        reveal(modulus);
    }
    let c2 = element(0xaf861af4a830e3cb, 0x9dac43c8663d4a43, 0x667d238c169c8dad, 0x1fd335e93980c88f);
    assert(c2.wf() && c2@ == 12853272419783978245995917302225694649366687506910892647236063701566570840428nat) by (nonlinear_arith)
        requires
            c2.limbs@ == seq![0xaf861af4a830e3cbu64, 0x9dac43c8663d4a43u64, 0x667d238c169c8dadu64, 0x1fd335e93980c88fu64],
    {
        reveal(modulus);
    }
    let c3 = element(0x76cd7452dabee7be, 0x179f9669b3470c47, 0xa2bcc37a7e3e4c39, 0x00c438f3ae0da84f);
    assert(c3.wf() && c3@ == 14374895923592519298500369713759001634990764548024903321294831249025876110484nat) by (nonlinear_arith)
        requires
            c3.limbs@ == seq![0x76cd7452dabee7beu64, 0x179f9669b3470c47u64, 0xa2bcc37a7e3e4c39u64, 0x00c438f3ae0da84fu64],
    {
        reveal(modulus);
    }
    let c4 = element(0xaddee77e65896478, 0xf76501d71142693b, 0xa2bcea588c00e94a, 0x01722a620d1ff415);
    assert(c4.wf() && c4@ == 1754533789272381217541450481312878927560073411620344950409407505576538004136nat) by (nonlinear_arith)
        requires
            c4.limbs@ == seq![0xaddee77e65896478u64, 0xf76501d71142693bu64, 0xa2bcea588c00e94au64, 0x01722a620d1ff415u64],
    {
        reveal(modulus);
    }
    let c5 = element(0x52e1361a9c23e520, 0x4da1bc258d71d221, 0x4833163a6bd5021f, 0x0454fd58808e54b0);
    assert(c5.wf() && c5@ == 20448232810715691360468548645921483318770769828465347895613479253435247065293nat) by (nonlinear_arith)
        requires
            c5.limbs@ == seq![0x52e1361a9c23e520u64, 0x4da1bc258d71d221u64, 0x4833163a6bd5021fu64, 0x0454fd58808e54b0u64],
    {
        reveal(modulus);
    }
    let c6 = element(0xa34eec98af509057, 0x2e045fe456fc3d06, 0x90bb41281158c2a0, 0x0f8cf45c26351255);
    assert(c6.wf() && c6@ == 4203277692183102377396835282861288449527228200284576966986741905195109677387nat) by (nonlinear_arith)
        requires
            c6.limbs@ == seq![0xa34eec98af509057u64, 0x2e045fe456fc3d06u64, 0x90bb41281158c2a0u64, 0x0f8cf45c26351255u64],
    {
        reveal(modulus);
    }
    let c7 = element(0x243306b131dcc1c4, 0xd17d829d08381589, 0xe0c512c5e114798e, 0x003d28d510b59fb3);
    assert(c7.wf() && c7@ == 11506339386261725202512749094297334054772084639665212079028551409689271965431nat) by (nonlinear_arith)
        requires
            c7.limbs@ == seq![0x243306b131dcc1c4u64, 0xd17d829d08381589u64, 0xe0c512c5e114798eu64, 0x003d28d510b59fb3u64],
    {
        reveal(modulus);
    }
    let r = [
        c0, c1, c2, c3, c4, c5, c6, c7,
    ];
    assert(values(r@) =~= rc_internal_2());
    r
}

fn internal_block_3() -> (r: [Fq; 8])
    ensures
        all_wf(r@),
        values(r@) == rc_internal_3(),
{
    let c0 = element(0x25b75c234f6444fb, 0xeb353c51fae5b32d, 0x00fb023df1f10957, 0x2f2711c2a9795a71);
    assert(c0.wf() && c0@ == 4408799661846477128378547528471700197737434561274043409442231147309460168718nat) by (nonlinear_arith)
        requires
            c0.limbs@ == seq![0x25b75c234f6444fbu64, 0xeb353c51fae5b32du64, 0x00fb023df1f10957u64, 0x2f2711c2a9795a71u64],
    {
        reveal(modulus);
    }
    let c1 = element(0xffe40ffd76a3c33c, 0x901a3707506b5ac6, 0xae56f79fb1e48843, 0x12c0e58cb67b0272);
    assert(c1.wf() && c1@ == 10862521404448958117187164110262290189825635328197001646848012017699995213390nat) by (nonlinear_arith)
        requires
            c1.limbs@ == seq![0xffe40ffd76a3c33cu64, 0x901a3707506b5ac6u64, 0xae56f79fb1e48843u64, 0x12c0e58cb67b0272u64],
    {
        reveal(modulus);
    }
    let c2 = element(0x6309182356f1402d, 0xb3f95ba486d54d35, 0x5a2ddb75a5857b1a, 0x28fe9993cc4197a9);
    assert(c2.wf() && c2@ == 7012061838863338817532836723152059636816924388921632356281537445328382279260nat) by (nonlinear_arith)
        requires
            c2.limbs@ == seq![0x6309182356f1402du64, 0xb3f95ba486d54d35u64, 0x5a2ddb75a5857b1au64, 0x28fe9993cc4197a9u64],
    {
        reveal(modulus);
    }
    let c3 = element(0xb0c450f4a3f6b5b0, 0xfb32607c6a8264d2, 0xcf4f33c877693cd9, 0x1688e51814e723b6);
    assert(c3.wf() && c3@ == 8337544039076735620694225144163354013921209405711398618659178986151546625400nat) by (nonlinear_arith)
        requires
            c3.limbs@ == seq![0xb0c450f4a3f6b5b0u64, 0xfb32607c6a8264d2u64, 0xcf4f33c877693cd9u64, 0x1688e51814e723b6u64],
    {
        reveal(modulus);
    }
    let c4 = element(0x8ad5b2a903c59de3, 0x7d1fd0b54c75b7ed, 0x7b4a673a13715eb5, 0x135ae381c9abc9ef);
    assert(c4.wf() && c4@ == 16173744372216956516796750206695252671549928142051779144629150462255079400849nat) by (nonlinear_arith)
        requires
            c4.limbs@ == seq![0x8ad5b2a903c59de3u64, 0x7d1fd0b54c75b7edu64, 0x7b4a673a13715eb5u64, 0x135ae381c9abc9efu64],
    {
        reveal(modulus);
    }
    let c5 = element(0x985df3dd87e82218, 0x8a8f90a81c7b6afc, 0x4e5335ed59689ddb, 0x0d57011fefb878b7);
    assert(c5.wf() && c5@ == 19072902632067672883974143637757649536845413107085656789672471396027868707732nat) by (nonlinear_arith)
        requires
            c5.limbs@ == seq![0x985df3dd87e82218u64, 0x8a8f90a81c7b6afcu64, 0x4e5335ed59689ddbu64, 0x0d57011fefb878b7u64],
    {
        reveal(modulus);
    }
    let c6 = element(0xbd085218ff45c733, 0xc45006a6febbde0c, 0x4dd8cc03d08175e9, 0x01489fd5585e3a76);
    assert(c6.wf() && c6@ == 3487852254355424154670010750480228751987308757772575371606146474985412561707nat) by (nonlinear_arith)
        requires
            c6.limbs@ == seq![0xbd085218ff45c733u64, 0xc45006a6febbde0cu64, 0x4dd8cc03d08175e9u64, 0x01489fd5585e3a76u64],
    {
        reveal(modulus);
    }
    let c7 = element(0xc298e7cec2adf0e4, 0xaff1e5dc96d4e0aa, 0xf813062aed3650d3, 0x141502464af64218);
    assert(c7.wf() && c7@ == 17727517395793273304860106667199855253218123164763798377815886217088561516989nat) by (nonlinear_arith)
        requires
            c7.limbs@ == seq![0xc298e7cec2adf0e4u64, 0xaff1e5dc96d4e0aau64, 0xf813062aed3650d3u64, 0x141502464af64218u64],
    {
        reveal(modulus);
    }
    let r = [
        c0, c1, c2, c3, c4, c5, c6, c7,
    ];
    assert(values(r@) =~= rc_internal_3());
    r
}

fn internal_block_4() -> (r: [Fq; 8])
    ensures
        all_wf(r@),
        values(r@) == rc_internal_4(),
{
    let c0 = element(0x2a225f3b96eac478, 0xe2c4637710a0c288, 0x334a38b2af702e8d, 0x078cff44e2702e40);
    assert(c0.wf() && c0@ == 13280131383170382695839570176732265848909891244754629477752800360224963964534nat) by (nonlinear_arith)
        requires
            c0.limbs@ == seq![0x2a225f3b96eac478u64, 0xe2c4637710a0c288u64, 0x334a38b2af702e8du64, 0x078cff44e2702e40u64],
    {
        reveal(modulus);
    }
    let c1 = element(0x160dc4b8ecd11192, 0xbfd46405af580450, 0xc859ded4e1574ad2, 0x0e24f08edbbdf10e);
    assert(c1.wf() && c1@ == 21504421972374418324171209120165696620934505501591484695447432472073975792776nat) by (nonlinear_arith)
        requires
            c1.limbs@ == seq![0x160dc4b8ecd11192u64, 0xbfd46405af580450u64, 0xc859ded4e1574ad2u64, 0x0e24f08edbbdf10eu64],
    {
        reveal(modulus);
    }
    let c2 = element(0x91e59108bab52fbd, 0x9253af9dec62a826, 0x7e946b84d0b98ef8, 0x2fbb7b1ab2e483ea);
    assert(c2.wf() && c2@ == 13753604424945682926871108642602624411461374991709441590662260371815673344981nat) by (nonlinear_arith)
        requires
            c2.limbs@ == seq![0x91e59108bab52fbdu64, 0x9253af9dec62a826u64, 0x7e946b84d0b98ef8u64, 0x2fbb7b1ab2e483eau64],
    {
        reveal(modulus);
    }
    let c3 = element(0xac92d3aa83eda039, 0xa46909098e1b86ad, 0x4ffd74303bc0dd1a, 0x023ca89463c8a8f3);
    assert(c3.wf() && c3@ == 8053178768600673579416591772204841415225213226540397062676127402210384682315nat) by (nonlinear_arith)
        requires
            c3.limbs@ == seq![0xac92d3aa83eda039u64, 0xa46909098e1b86adu64, 0x4ffd74303bc0dd1au64, 0x023ca89463c8a8f3u64],
    {
        reveal(modulus);
    }
    let c4 = element(0x3fd205fcec8cac00, 0x4eb6b7a0e62b9259, 0x7a2aeaf511dc0089, 0x0c3bec0390e63b2c);
    assert(c4.wf() && c4@ == 15101558583452488762759591936595783545455044970328380152280373697190919758012nat) by (nonlinear_arith)
        requires
            c4.limbs@ == seq![0x3fd205fcec8cac00u64, 0x4eb6b7a0e62b9259u64, 0x7a2aeaf511dc0089u64, 0x0c3bec0390e63b2cu64],
    {
        reveal(modulus);
    }
    let c5 = element(0xaf9390f4c48910dd, 0x5d5890c5a83287eb, 0x72c8b90e7fb055f1, 0x1841ff432dea9c62);
    assert(c5.wf() && c5@ == 6286700389345423344101403023711121482167900236544298155098199100234816571786nat) by (nonlinear_arith)
        requires
            c5.limbs@ == seq![0xaf9390f4c48910ddu64, 0x5d5890c5a83287ebu64, 0x72c8b90e7fb055f1u64, 0x1841ff432dea9c62u64],
    {
        reveal(modulus);
    }
    let c6 = element(0x69faa71e59bf0bb5, 0x5bc0f299809df839, 0x270e1a316c468e1c, 0x29a11242d6147416);
    assert(c6.wf() && c6@ == 19368755554193272721035317233504719593365546521121074341670771231332472422552nat) by (nonlinear_arith)
        requires
            c6.limbs@ == seq![0x69faa71e59bf0bb5u64, 0x5bc0f299809df839u64, 0x270e1a316c468e1cu64, 0x29a11242d6147416u64],
    {
        reveal(modulus);
    }
    let c7 = element(0x8972b665b65fdc48, 0x5c9c56f94edd199f, 0x7655c00b06c983ae, 0x0b0f3ab31e51c321);
    assert(c7.wf() && c7@ == 13306281365497267243785678269212920842854030794417306689235276460198094483575nat) by (nonlinear_arith)
        requires
            c7.limbs@ == seq![0x8972b665b65fdc48u64, 0x5c9c56f94edd199fu64, 0x7655c00b06c983aeu64, 0x0b0f3ab31e51c321u64],
    {
        reveal(modulus);
    }
    let r = [
        c0, c1, c2, c3, c4, c5, c6, c7,
    ];
    assert(values(r@) =~= rc_internal_4());
    r
}

fn internal_block_5() -> (r: [Fq; 8])
    ensures
        all_wf(r@),
        values(r@) == rc_internal_5(),
{
    let c0 = element(0xa060ea214656c733, 0x3e03eaf6fcfc3711, 0x1283ed55768e5a4e, 0x1d52067c7b3ed73b);
    assert(c0.wf() && c0@ == 10121764749051640353641114693266514664967620368543293902008953934189850195966nat) by (nonlinear_arith)
        requires
            c0.limbs@ == seq![0xa060ea214656c733u64, 0x3e03eaf6fcfc3711u64, 0x1283ed55768e5a4eu64, 0x1d52067c7b3ed73bu64],
    {
        reveal(modulus);
    }
    let c1 = element(0xd3e688c7184334a4, 0x3300ee2a8b440d8e, 0x09cb5cabeb30bc1a, 0x10b468936b68a8c9);
    assert(c1.wf() && c1@ == 179619165022370308972665071682395477322215797039585945216341070107573537790nat) by (nonlinear_arith)
        requires
            c1.limbs@ == seq![0xd3e688c7184334a4u64, 0x3300ee2a8b440d8eu64, 0x09cb5cabeb30bc1au64, 0x10b468936b68a8c9u64],
    {
        reveal(modulus);
    }
    let c2 = element(0xd905c6a45919c64d, 0x42c29960a1ecb91d, 0xdb15563a04a42f1e, 0x222da53fd2ff55be);
    assert(c2.wf() && c2@ == 14053393851645634065914179337120715807963438235922115988819572738574714471437nat) by (nonlinear_arith)
        requires
            c2.limbs@ == seq![0xd905c6a45919c64du64, 0x42c29960a1ecb91du64, 0xdb15563a04a42f1eu64, 0x222da53fd2ff55beu64],
    {
        reveal(modulus);
    }
    let c3 = element(0x795621e7baf9856a, 0xbd06eab74a37377f, 0xd69262b4482dfab7, 0x06336772940098e7);
    assert(c3.wf() && c3@ == 17345906218970918797922168310670548252023720338285437740234091480846393436478nat) by (nonlinear_arith)
        requires
            c3.limbs@ == seq![0x795621e7baf9856au64, 0xbd06eab74a37377fu64, 0xd69262b4482dfab7u64, 0x06336772940098e7u64],
    {
        reveal(modulus);
    }
    let c4 = element(0xb15532dc0bbc434a, 0x935ec462c1914f69, 0xd263edc8605fe849, 0x201a1b25dcce9527);
    assert(c4.wf() && c4@ == 10383068492552043678323859571562933490503408853170063884414176092784243607055nat) by (nonlinear_arith)
        requires
            c4.limbs@ == seq![0xb15532dc0bbc434au64, 0x935ec462c1914f69u64, 0xd263edc8605fe849u64, 0x201a1b25dcce9527u64],
    {
        reveal(modulus);
    }
    let c5 = element(0x7f9233db7d37cc55, 0x39e290933fa1e7cb, 0x4b7f45bfcb35976a, 0x095f02ff83f0c587);
    assert(c5.wf() && c5@ == 12096041499044892166554391619429604246288825927654072010011878199637889490527nat) by (nonlinear_arith)
        requires
            c5.limbs@ == seq![0x7f9233db7d37cc55u64, 0x39e290933fa1e7cbu64, 0x4b7f45bfcb35976au64, 0x095f02ff83f0c587u64],
    {
        reveal(modulus);
    }
    let c6 = element(0xf4eb6a6839d344c8, 0x61d3173fcc408889, 0x358b1b65754bc487, 0x041a46d8f8d020da);
    assert(c6.wf() && c6@ == 6449742640166027959651492823149770763572943879017164812917305794918053034585nat) by (nonlinear_arith)
        requires
            c6.limbs@ == seq![0xf4eb6a6839d344c8u64, 0x61d3173fcc408889u64, 0x358b1b65754bc487u64, 0x041a46d8f8d020dau64],
    {
        reveal(modulus);
    }
    let c7 = element(0x76955850eea956d1, 0x329bb5c33f7ce928, 0xb89bbc088b21b882, 0x1d8400cddbf59315);
    assert(c7.wf() && c7@ == 6551805454148805882554763665748573416514894105513920161214733482541847062214nat) by (nonlinear_arith)
        requires
            c7.limbs@ == seq![0x76955850eea956d1u64, 0x329bb5c33f7ce928u64, 0xb89bbc088b21b882u64, 0x1d8400cddbf59315u64],
    {
        reveal(modulus);
    }
    let r = [
        c0, c1, c2, c3, c4, c5, c6, c7,
    ];
    assert(values(r@) =~= rc_internal_5());
    r
}

fn internal_block_6() -> (r: [Fq; 8])
    ensures
        all_wf(r@),
        values(r@) == rc_internal_6(),
{
    let c0 = element(0xe7afa14d64087d30, 0x7e1d1f05521f9766, 0xda7886ca0435f6c2, 0x162043960c90400d);
    assert(c0.wf() && c0@ == 3651410956659878392469489270906333016569562868954890104332567650040497030813nat) by (nonlinear_arith)
        requires
            c0.limbs@ == seq![0xe7afa14d64087d30u64, 0x7e1d1f05521f9766u64, 0xda7886ca0435f6c2u64, 0x162043960c90400du64],
    {
        reveal(modulus);
    }
    let c1 = element(0x2406277f2efd539c, 0x7619c402bf80b5ee, 0x8df98925b1e02b30, 0x29aa9e804f8ba893);
    assert(c1.wf() && c1@ == 15219053914464753937310253926447830297339787956721755285255510737973021838676nat) by (nonlinear_arith)
        requires
            c1.limbs@ == seq![0x2406277f2efd539cu64, 0x7619c402bf80b5eeu64, 0x8df98925b1e02b30u64, 0x29aa9e804f8ba893u64],
    {
        reveal(modulus);
    }
    let c2 = element(0x61637e664dda1e31, 0x451c6e5727eb3f1d, 0x33a1432b3c6bc83c, 0x12c1abfc08d0e74f);
    assert(c2.wf() && c2@ == 881679665678132972106931291023348167890022611850562267871389203532691753422nat) by (nonlinear_arith)
        requires
            c2.limbs@ == seq![0x61637e664dda1e31u64, 0x451c6e5727eb3f1du64, 0x33a1432b3c6bc83cu64, 0x12c1abfc08d0e74fu64],
    {
        reveal(modulus);
    }
    let c3 = element(0xcc07040ff65773dd, 0x4c04f1390c2ec344, 0xe7e912e6ca1e8523, 0x0d8eaffd17a6be33);
    assert(c3.wf() && c3@ == 5006067481688857073852527145736822635357747460125905556158034280392250104971nat) by (nonlinear_arith)
        requires
            c3.limbs@ == seq![0xcc07040ff65773ddu64, 0x4c04f1390c2ec344u64, 0xe7e912e6ca1e8523u64, 0x0d8eaffd17a6be33u64],
    {
        reveal(modulus);
    }
    let c4 = element(0xde8160aa9f9fc719, 0x78c44db32a8900c9, 0x60a764e3354fdd17, 0x1c20317d24a81952);
    assert(c4.wf() && c4@ == 12765332320844032254009314500332101047115754896003948733635815046365410860591nat) by (nonlinear_arith)
        requires
            c4.limbs@ == seq![0xde8160aa9f9fc719u64, 0x78c44db32a8900c9u64, 0x60a764e3354fdd17u64, 0x1c20317d24a81952u64],
    {
        reveal(modulus);
    }
    let c5 = element(0x27a34e474a38f228, 0xdc1f7f9c49138197, 0x6a7345260fcc6063, 0x0fd1c6328c7ed4d2);
    assert(c5.wf() && c5@ == 12908190215073542091623737558383307555705501651914623082354191483197810853182nat) by (nonlinear_arith)
        requires
            c5.limbs@ == seq![0x27a34e474a38f228u64, 0xdc1f7f9c49138197u64, 0x6a7345260fcc6063u64, 0x0fd1c6328c7ed4d2u64],
    {
        reveal(modulus);
    }
    let c6 = element(0x1a23634f913af446, 0x089c939a6ff10352, 0x7ba874ea0250b0fe, 0x081b59ca4ea4de4a);
    assert(c6.wf() && c6@ == 1446042792715825508366007519346636771782990303010685652946852324744810237839nat) by (nonlinear_arith)
        requires
            c6.limbs@ == seq![0x1a23634f913af446u64, 0x089c939a6ff10352u64, 0x7ba874ea0250b0feu64, 0x081b59ca4ea4de4au64],
    {
        reveal(modulus);
    }
    let c7 = element(0xf58f374a9ce9ff43, 0xfef4b21e9aab157d, 0x6cb30b885302aee7, 0x25685b31c9911102);
    assert(c7.wf() && c7@ == 17414863822034645298427260856470503848317996477890518738401812766215195632841nat) by (nonlinear_arith)
        requires
            c7.limbs@ == seq![0xf58f374a9ce9ff43u64, 0xfef4b21e9aab157du64, 0x6cb30b885302aee7u64, 0x25685b31c9911102u64],
    {
        reveal(modulus);
    }
    let r = [
        c0, c1, c2, c3, c4, c5, c6, c7,
    ];
    assert(values(r@) =~= rc_internal_6());
    r
}

fn internal_table() -> (r: [Fq; 56])
    ensures
        all_wf(r@),
        values(r@) == rc_internal(),
{
    let zero = Fq::zero();
    let mut r = [zero; 56];
    let b0 = internal_block_0();
    place_block(&mut r, &b0, 0);
    let b1 = internal_block_1();
    place_block(&mut r, &b1, 8);
    let b2 = internal_block_2();
    place_block(&mut r, &b2, 16);
    let b3 = internal_block_3();
    place_block(&mut r, &b3, 24);
    let b4 = internal_block_4();
    place_block(&mut r, &b4, 32);
    let b5 = internal_block_5();
    place_block(&mut r, &b5, 40);
    let b6 = internal_block_6();
    place_block(&mut r, &b6, 48);
    proof {
        assert forall|k: int| 0 <= k < 56 implies values(r@)[k] == rc_internal()[k] by {
            if 0 <= k < 8 {
                assert(r[0 + (k - 0)] == b0[k - 0]);
                assert(values(b0@)[k - 0] == rc_internal_0()[k - 0]);
            }
            if 8 <= k < 16 {
                assert(r[8 + (k - 8)] == b1[k - 8]);
                assert(values(b1@)[k - 8] == rc_internal_1()[k - 8]);
            }
            if 16 <= k < 24 {
                assert(r[16 + (k - 16)] == b2[k - 16]);
                assert(values(b2@)[k - 16] == rc_internal_2()[k - 16]);
            }
            if 24 <= k < 32 {
                assert(r[24 + (k - 24)] == b3[k - 24]);
                assert(values(b3@)[k - 24] == rc_internal_3()[k - 24]);
            }
            if 32 <= k < 40 {
                assert(r[32 + (k - 32)] == b4[k - 32]);
                assert(values(b4@)[k - 32] == rc_internal_4()[k - 32]);
            }
            if 40 <= k < 48 {
                assert(r[40 + (k - 40)] == b5[k - 40]);
                assert(values(b5@)[k - 40] == rc_internal_5()[k - 40]);
            }
            if 48 <= k < 56 {
                assert(r[48 + (k - 48)] == b6[k - 48]);
                assert(values(b6@)[k - 48] == rc_internal_6()[k - 48]);
            }
        }
        assert(values(r@) =~= rc_internal());
    }
    r
}

/// The instance with its tables.
pub fn instance() -> (p: Poseidon2Permutation<3, 5, 8, 56>)
    ensures
        p.wf(),
        p@ == parameters(),
        diagonal_fits_width(p@.diag_m1),
{
    let rows = [
        external_row_0(),
        external_row_1(),
        external_row_2(),
        external_row_3(),
        external_row_4(),
        external_row_5(),
        external_row_6(),
        external_row_7(),
    ];
    let made = Poseidon2Permutation::<3, 5, 8, 56>::new(diag_table(), rows, internal_table());
    match made {
        Ok(p) => {
            proof {
                assert(p@.rc_external =~= rc_external());
            }
            p
        },
        Err(_) => {
            proof {
                assert(valid_config(3, 5, 8));
            }
            vstd::pervasive::unreached()
        },
    }
}

/// The permutation of a state, which is left as it is.
pub fn permutation(input: &[Fq; 3]) -> (output: [Fq; 3])
    requires
        all_wf(input@),
    ensures
        all_wf(output@),
        values(output@) == permute(5, parameters(), values(input@)),
{
    instance().permutation(input)
}

/// The permutation, on the state in place.
pub fn permutation_in_place(state: &mut [Fq; 3])
    requires
        all_wf(old(state)@),
    ensures
        all_wf(final(state)@),
        values(final(state)@) == permute(5, parameters(), values(old(state)@)),
{
    instance().permutation_in_place(state)
}

} // verus!
